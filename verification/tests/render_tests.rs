use group_title::calendar::{is_listed, specifier_list, LocalTime, MAX_INSTANT_SECS};
use group_title::template::{check_length, render, separator_string, TemplateContext, TitleError};

const MARCH_5_2024_10H: u64 = 1_709_632_800_000;
const MARCH_5_2024_20H: u64 = 1_709_668_800_000;
const NEW_YEARS_EVE_2024_23H30: u64 = 1_735_687_800_000;

fn strings(items: &[&str]) -> Vec<String> {
    items.iter().map(|s| s.to_string()).collect()
}

fn render_utc(segments: &[&str], delimiter: &str) -> Result<String, TitleError> {
    render(&strings(segments), delimiter, MARCH_5_2024_10H, "UTC")
}

#[test]
fn single_segment_renders_without_delimiter() {
    assert_eq!(render_utc(&["Team Chat"], "|"), Ok("Team Chat".to_string()));
}

#[test]
fn pushed_date_segment_renders_after_delimiter() {
    assert_eq!(
        render_utc(&["Team Chat", "{Y}-{m}-{d}"], "|"),
        Ok("Team Chat | 2024-03-05".to_string())
    );
}

#[test]
fn delimiter_stands_between_single_spaces() {
    assert_eq!(render_utc(&["a", "b", "c"], "·"), Ok("a · b · c".to_string()));
    assert_eq!(render_utc(&["a", "b"], " | "), Ok("a  |  b".to_string()));
    assert_eq!(render_utc(&["a", "b"], ""), Ok("a  b".to_string()));
}

#[test]
fn separator_string_wraps_the_delimiter() {
    assert_eq!(separator_string("|"), " | ");
    assert_eq!(separator_string(""), "  ");
}

#[test]
fn date_fields_are_expanded() {
    assert_eq!(render_utc(&["{Y}"], "|"), Ok("2024".to_string()));
    assert_eq!(render_utc(&["{C}{y}"], "|"), Ok("2024".to_string()));
    assert_eq!(render_utc(&["{b} {B} {h}"], "|"), Ok("Mar March Mar".to_string()));
    assert_eq!(render_utc(&["{a} {A}"], "|"), Ok("Tue Tuesday".to_string()));
    assert_eq!(render_utc(&["{d}/{e}"], "|"), Ok("05/ 5".to_string()));
    assert_eq!(render_utc(&["{w}{u}"], "|"), Ok("22".to_string()));
    assert_eq!(render_utc(&["{U} {W} {V}"], "|"), Ok("09 10 10".to_string()));
    assert_eq!(render_utc(&["{G} {g}"], "|"), Ok("2024 24".to_string()));
    assert_eq!(render_utc(&["{j}"], "|"), Ok("065".to_string()));
    assert_eq!(render_utc(&["{D} {x} {F}"], "|"), Ok("03/05/24 03/05/24 2024-03-05".to_string()));
    assert_eq!(render_utc(&["{v}"], "|"), Ok(" 5-Mar-2024".to_string()));
}

#[test]
fn time_fields_are_expanded() {
    assert_eq!(render_utc(&["{H}:{M}:{S}"], "|"), Ok("10:00:00".to_string()));
    assert_eq!(render_utc(&["{k}|{I}|{l}"], "|"), Ok("10|10|10".to_string()));
    assert_eq!(render_utc(&["{P} {p}"], "|"), Ok("am AM".to_string()));
    assert_eq!(render_utc(&["{f}"], "|"), Ok("000000000".to_string()));
    assert_eq!(render_utc(&["{R} {T} {X}"], "|"), Ok("10:00 10:00:00 10:00:00".to_string()));
    assert_eq!(render_utc(&["{r}"], "|"), Ok("10:00:00 AM".to_string()));
    assert_eq!(render_utc(&["{c}"], "|"), Ok("Tue Mar  5 10:00:00 2024".to_string()));
    assert_eq!(render_utc(&["{s}"], "|"), Ok("1709632800".to_string()));
}

#[test]
fn zone_fields_are_expanded() {
    assert_eq!(render_utc(&["{Z}"], "|"), Ok("UTC".to_string()));
    assert_eq!(render_utc(&["{z}"], "|"), Ok("+0000".to_string()));
    assert_eq!(render_utc(&["{:z}"], "|"), Ok("+00:00".to_string()));
    assert_eq!(render_utc(&["{+}"], "|"), Ok("2024-03-05T10:00:00+00:00".to_string()));
}

#[test]
fn years_since_epoch_year_are_counted() {
    assert_eq!(render_utc(&["{yeshu}"], "|"), Ok("36".to_string()));
}

#[test]
fn years_are_counted_in_the_zone_of_the_group() {
    let segments = strings(&["{Y} {yeshu}"]);
    assert_eq!(
        render(&segments, "|", NEW_YEARS_EVE_2024_23H30, "UTC"),
        Ok("2024 36".to_string())
    );
    assert_eq!(
        render(&segments, "|", NEW_YEARS_EVE_2024_23H30, "Asia/Tokyo"),
        Ok("2025 37".to_string())
    );
}

#[test]
fn instant_is_seen_in_the_zone_of_the_group() {
    let segments = strings(&["{F} {H}:{M} {Z} {z}"]);
    assert_eq!(
        render(&segments, "|", MARCH_5_2024_20H, "Asia/Shanghai"),
        Ok("2024-03-06 04:00 CST +0800".to_string())
    );
    assert_eq!(
        render(&segments, "|", MARCH_5_2024_20H, "America/New_York"),
        Ok("2024-03-05 15:00 EST -0500".to_string())
    );
}

#[test]
fn unknown_zone_falls_back_to_universal_time() {
    let segments = strings(&["{F} {H} {Z}"]);
    let expected = Ok("2024-03-05 20 UTC".to_string());
    assert_eq!(render(&segments, "|", MARCH_5_2024_20H, "Nowhere/Land"), expected);
    assert_eq!(render(&segments, "|", MARCH_5_2024_20H, ""), expected);
    assert_eq!(render(&segments, "|", MARCH_5_2024_20H, "asia/shanghai"), expected);
}

#[test]
fn placeholder_may_be_padded_with_spaces() {
    assert_eq!(render_utc(&["{ Y }"], "|"), Ok("2024".to_string()));
}

#[test]
fn text_without_placeholders_is_left_alone() {
    assert_eq!(render_utc(&["100% {not a name} }{"], "|"), Ok("100% {not a name} }{".to_string()));
    assert_eq!(render_utc(&["Y m d"], "|"), Ok("Y m d".to_string()));
}

#[test]
fn unknown_placeholder_is_an_error() {
    assert_eq!(render_utc(&["{nope}"], "|"), Err(TitleError::InvalidTemplate));
    assert_eq!(render_utc(&["ok", "{Y}", "{q}"], "|"), Err(TitleError::InvalidTemplate));
    assert_eq!(render_utc(&["{YY}"], "|"), Err(TitleError::InvalidTemplate));
}

#[test]
fn placeholder_in_the_delimiter_is_expanded_too() {
    assert_eq!(render_utc(&["a", "b"], "{Y}"), Ok("a 2024 b".to_string()));
    assert_eq!(render_utc(&["a", "b"], "{nope}"), Err(TitleError::InvalidTemplate));
    assert_eq!(render_utc(&["a"], "{nope}"), Ok("a".to_string()));
}

#[test]
fn no_segments_render_to_nothing() {
    assert_eq!(render_utc(&[], "|"), Ok(String::new()));
}

#[test]
fn renderer_sets_no_limit_on_length() {
    let long = "x".repeat(1000);
    assert_eq!(render_utc(&[&long], "|"), Ok(long.clone()));
}

#[test]
fn instant_past_the_last_year_is_out_of_range() {
    let last = (MAX_INSTANT_SECS as u64) * 1000 + 999;
    assert_eq!(render(&strings(&["{Y}"]), "|", last, "UTC"), Ok("9999".to_string()));
    assert_eq!(
        render(&strings(&["{Y}"]), "|", last + 1, "UTC"),
        Err(TitleError::InstantOutOfRange)
    );
    assert_eq!(
        render(&strings(&["plain"]), "|", u64::MAX, "UTC"),
        Err(TitleError::InstantOutOfRange)
    );
}

#[test]
fn epoch_renders() {
    assert_eq!(
        render(&strings(&["{F} {T} {yeshu}"]), "|", 0, "UTC"),
        Ok("1970-01-01 00:00:00 -18".to_string())
    );
}

#[test]
fn milliseconds_are_cut_off() {
    assert_eq!(
        render(&strings(&["{s}"]), "|", 1_709_632_800_999, "UTC"),
        Ok("1709632800".to_string())
    );
}

#[test]
fn rendering_twice_gives_the_same_title() {
    let segments = strings(&["Team Chat", "{c} {Z} {yeshu}"]);
    let first = render(&segments, "|", MARCH_5_2024_20H, "Europe/Berlin");
    let second = render(&segments, "|", MARCH_5_2024_20H, "Europe/Berlin");
    assert_eq!(first, second);
    assert_eq!(first, Ok("Team Chat | Tue Mar  5 21:00:00 2024 CET 36".to_string()));
}

#[test]
fn check_length_takes_one_to_255_characters() {
    assert_eq!(check_length("a".to_string()), Ok("a".to_string()));
    let longest = "x".repeat(255);
    assert_eq!(check_length(longest.clone()), Ok(longest));
}

#[test]
fn check_length_refuses_empty_and_overlong_titles() {
    assert_eq!(check_length(String::new()), Err(TitleError::InvalidLength));
    assert_eq!(check_length("x".repeat(256)), Err(TitleError::InvalidLength));
}

#[test]
fn check_length_counts_characters() {
    let wide = "题".repeat(255);
    assert_eq!(check_length(wide.clone()), Ok(wide));
    assert_eq!(check_length("题".repeat(256)), Err(TitleError::InvalidLength));
}

#[test]
fn local_time_needs_an_instant_in_range() {
    assert!(LocalTime::new(0, "UTC").is_some());
    assert!(LocalTime::new(MAX_INSTANT_SECS, "UTC").is_some());
    assert!(LocalTime::new(-1, "UTC").is_none());
    assert!(LocalTime::new(MAX_INSTANT_SECS + 1, "UTC").is_none());
}

#[test]
fn local_time_keeps_known_zones_and_replaces_unknown_ones() {
    let known = LocalTime::new(1_709_632_800, "Europe/Berlin").unwrap();
    assert_eq!(known.zone_name(), "Europe/Berlin");
    assert_eq!(known.timestamp(), 1_709_632_800);
    let unknown = LocalTime::new(1_709_632_800, "Mars/Olympus").unwrap();
    assert_eq!(unknown.zone_name(), "UTC");
}

#[test]
fn local_time_formats_listed_fields_only() {
    let local = LocalTime::new(1_709_632_800, "Europe/Berlin").unwrap();
    assert_eq!(local.field("H"), Some("11".to_string()));
    assert_eq!(local.field("Z"), Some("CET".to_string()));
    assert_eq!(local.field("q"), None);
    assert_eq!(local.field("%Y"), None);
    assert_eq!(local.field(""), None);
    assert_eq!(local.year(), 2024);
}

#[test]
fn every_listed_specifier_is_listed() {
    let list = specifier_list();
    assert_eq!(list.len(), 42);
    for specifier in list {
        assert!(is_listed(specifier));
    }
    assert!(!is_listed("yeshu"));
    assert!(!is_listed("n"));
}

#[test]
fn context_holds_every_field_and_the_years() {
    let local = LocalTime::new(1_709_632_800, "UTC").unwrap();
    let context = TemplateContext::generate(&local);
    assert_eq!(context.len(), 43);
    for specifier in specifier_list() {
        assert_eq!(context.get(specifier).map(|v| v.to_string()), local.field(specifier));
    }
    assert_eq!(context.get("Y"), Some("2024"));
    assert_eq!(context.get("yeshu"), Some("36"));
    assert_eq!(context.get("nope"), None);
}

#[test]
fn context_expands_templates() {
    let local = LocalTime::new(1_709_632_800, "UTC").unwrap();
    let context = TemplateContext::generate(&local);
    assert_eq!(context.expand("{Y}/{m}"), Some("2024/03".to_string()));
    assert_eq!(context.expand("plain"), Some("plain".to_string()));
    assert_eq!(context.expand("{nope}"), None);
}

#[test]
fn assemble_pairs_each_pattern_with_its_field() {
    let fields: Vec<String> = (0..42).map(|i| format!("field {}", i)).collect();
    let context = TemplateContext::assemble(fields, 2024).unwrap();
    assert_eq!(context.len(), 43);
    for (i, specifier) in specifier_list().into_iter().enumerate() {
        assert_eq!(context.get(specifier), Some(format!("field {}", i).as_str()));
    }
    assert_eq!(context.get("yeshu"), Some("36"));
    assert_eq!(context.expand("{Y}|{s}|{yeshu}"), Some("field 0|field 41|36".to_string()));
}

#[test]
fn assemble_counts_years_from_1988() {
    let fields: Vec<String> = (0..42).map(|_| String::new()).collect();
    let years = |year: i32| {
        TemplateContext::assemble(fields.clone(), year).unwrap().get("yeshu").map(|v| v.to_string())
    };
    assert_eq!(years(1988), Some("0".to_string()));
    assert_eq!(years(1989), Some("1".to_string()));
    assert_eq!(years(1970), Some("-18".to_string()));
    assert_eq!(years(i32::MAX), Some("2147481659".to_string()));
    assert_eq!(years(i32::MIN), Some("-2147485636".to_string()));
}

#[test]
fn assemble_needs_a_field_for_each_pattern() {
    assert!(TemplateContext::assemble(Vec::new(), 2024).is_none());
    assert!(TemplateContext::assemble(vec![String::new(); 41], 2024).is_none());
    assert!(TemplateContext::assemble(vec![String::new(); 43], 2024).is_none());
    assert!(TemplateContext::assemble(vec![String::new(); 42], 2024).is_some());
}
