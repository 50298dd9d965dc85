//! Title templates: the values of their placeholders at an instant, and
//! their expansion.
//!
//! A template is plain text in which `{name}` stands for a value. The names
//! are the one-field date and time patterns of the calendar, and `yeshu`, the
//! number of years since 1988. The expansion itself is the work of the
//! `new_string_template` crate: a placeholder whose name has no value makes
//! the expansion fail, it is never left standing in a title.

use vstd::prelude::*;
use crate::calendar::{
    effective_zone, instant_in_range, local_format, local_year, specifier_list, specifiers,
    LocalTime,
};
use crate::text::{decimal, decimal_string, join, join_strings, texts};

verus! {

/// The shortest title that the platform accepts, in characters.
pub const MIN_TITLE_LEN: usize = 1;

/// The longest title that the platform accepts, in characters.
pub const MAX_TITLE_LEN: usize = 255;

/// Why a template did not give a title.
#[derive(Clone, Copy, Debug, PartialEq, Eq, Structural)]
pub enum TitleError {
    /// A placeholder of the template has no value.
    InvalidTemplate,
    /// The rendered title is empty or longer than `MAX_TITLE_LEN` characters.
    InvalidLength,
    /// The instant lies outside the range that the calendar formats.
    InstantOutOfRange,
}

/// The year from which `yeshu` counts.
pub const EPOCH_YEAR: i64 = 1988;

/// The name of the placeholder that counts years since `EPOCH_YEAR`.
pub const YEARS_SINCE_EPOCH: &'static str = "yeshu";

/// The error of `new_string_template`. Nothing is claimed of what it holds.
#[verifier::external_type_specification]
#[verifier::external_body]
pub struct ExTemplateError(new_string_template::error::TemplateError);

/// What `new_string_template` makes of `template` when the placeholders have
/// the values of `bindings`, each a name and its value: the expanded text, or
/// nothing where a placeholder has no value.
pub uninterp spec fn template_output(
    template: Seq<char>,
    bindings: Seq<(Seq<char>, Seq<char>)>,
) -> Option<Seq<char>>;

/// The value of one placeholder.
#[derive(Clone, Debug, PartialEq, Eq)]
pub struct Binding {
    pub name: String,
    pub value: String,
}

/// The values of the placeholders for one rendering. It is made anew for
/// each rendering and never stored.
#[derive(Clone, Debug)]
pub struct TemplateContext {
    inner: Vec<Binding>,
}

impl View for TemplateContext {
    type V = Seq<(Seq<char>, Seq<char>)>;

    closed spec fn view(&self) -> Seq<(Seq<char>, Seq<char>)> {
        Seq::new(self.inner@.len(), |i: int| (self.inner@[i].name@, self.inner@[i].value@))
    }
}

/// The placeholders and their values when the calendar patterns give
/// `fields`, in the order of `specifiers()`, and the calendar year is `year`:
/// one for each pattern, and last the years since `EPOCH_YEAR`.
pub open spec fn bindings_of(fields: Seq<Seq<char>>, year: int) -> Seq<(Seq<char>, Seq<char>)> {
    Seq::new(specifiers().len(), |i: int| (specifiers()[i], fields[i])).push(
        (YEARS_SINCE_EPOCH@, decimal(year - EPOCH_YEAR)),
    )
}

/// What the calendar patterns give for the instant `secs` seen in `zone`, in
/// the order of `specifiers()`.
pub open spec fn local_fields(secs: int, zone: Seq<char>) -> Seq<Seq<char>> {
    Seq::new(specifiers().len(), |i: int| local_format(secs, zone, specifiers()[i]))
}

/// The placeholders and their values for the instant `secs` seen in `zone`.
pub open spec fn context_bindings(secs: int, zone: Seq<char>) -> Seq<(Seq<char>, Seq<char>)> {
    bindings_of(local_fields(secs, zone), local_year(secs, zone))
}

/// What stands between two segments of a title: the delimiter with one space
/// on each side.
pub open spec fn separator(delimiter: Seq<char>) -> Seq<char> {
    seq![' '] + delimiter + seq![' ']
}

/// The template of a title: its segments joined by the separator.
pub open spec fn title_template(segments: Seq<Seq<char>>, delimiter: Seq<char>) -> Seq<char> {
    join(segments, separator(delimiter))
}

/// The whole seconds of an instant given in milliseconds since the epoch.
pub open spec fn instant_secs(instant_millis: u64) -> int {
    instant_millis as int / 1000
}

/// The title that `segments` and `delimiter` give at `instant_millis` in the
/// zone named `timezone`, universal time where that names no zone. The
/// length of the title is not looked at.
pub open spec fn rendered(
    segments: Seq<Seq<char>>,
    delimiter: Seq<char>,
    instant_millis: u64,
    timezone: Seq<char>,
) -> Result<Seq<char>, TitleError> {
    if !instant_in_range(instant_secs(instant_millis)) {
        Err(TitleError::InstantOutOfRange)
    } else {
        match template_output(
            title_template(segments, delimiter),
            context_bindings(instant_secs(instant_millis), effective_zone(timezone)),
        ) {
            Some(title) => Ok(title),
            None => Err(TitleError::InvalidTemplate),
        }
    }
}

/// Whether a title of `len` characters is one that the platform accepts.
pub open spec fn acceptable_length(len: nat) -> bool {
    MIN_TITLE_LEN <= len <= MAX_TITLE_LEN
}

/// The title to send for `segments` and `delimiter` at `instant_millis`: the
/// rendered title where its length is acceptable.
pub open spec fn title_to_send(
    segments: Seq<Seq<char>>,
    delimiter: Seq<char>,
    instant_millis: u64,
    timezone: Seq<char>,
) -> Result<Seq<char>, TitleError> {
    match rendered(segments, delimiter, instant_millis, timezone) {
        Ok(title) => if acceptable_length(title.len()) {
            Ok(title)
        } else {
            Err(TitleError::InvalidLength)
        },
        Err(e) => Err(e),
    }
}

/// Whether the outcome `out` of a computation is the outcome `model` that its
/// contract names: the same error, or texts of the same characters.
pub open spec fn same_outcome(
    out: Result<String, TitleError>,
    model: Result<Seq<char>, TitleError>,
) -> bool {
    match out {
        Ok(text) => model == Ok::<Seq<char>, TitleError>(text@),
        Err(e) => model == Err::<Seq<char>, TitleError>(e),
    }
}

/// Calls `new_string_template::template::Template::new` on `template` and
/// `render` on the result, with the bindings of `context` as its values.
/// Claims only that the outcome is the one named `template_output`.
#[verifier::external_body]
fn render_template(template: &str, context: &TemplateContext) -> (out: Result<
    String,
    new_string_template::error::TemplateError,
>)
    ensures
        out.is_ok() == template_output(template@, context@).is_some(),
        out matches Ok(text) ==> template_output(template@, context@) == Some(text@),
{
    let mut values: std::collections::HashMap<&str, &str> = std::collections::HashMap::new();
    for binding in context.inner.iter() {
        values.insert(binding.name.as_str(), binding.value.as_str());
    }
    new_string_template::template::Template::new(template).render(&values)
}

impl TemplateContext {
    /// The values of the placeholders when the calendar patterns give
    /// `fields`, in the order of `specifiers()`, and the calendar year is
    /// `year`. There must be a field for each pattern and no more.
    pub fn assemble(fields: Vec<String>, year: i32) -> (out: Option<TemplateContext>)
        ensures
            out.is_some() == (fields@.len() == specifiers().len()),
            out matches Some(context) ==> context@ == bindings_of(texts(fields@), year as int),
    {
        let list: Vec<&'static str> = specifier_list();
        if fields.len() != list.len() {
            return None;
        }
        let mut inner: Vec<Binding> = Vec::new();
        let mut i: usize = 0;
        while i < list.len()
            invariant
                i <= list@.len(),
                list@.len() == specifiers().len(),
                fields@.len() == list@.len(),
                forall|k: int| 0 <= k < list@.len() ==> (#[trigger] list@[k])@ == specifiers()[k],
                inner@.len() == i,
                forall|k: int|
                    0 <= k < i ==> (#[trigger] inner@[k]).name@ == specifiers()[k]
                        && inner@[k].value@ == fields@[k]@,
            decreases list@.len() - i,
        {
            inner.push(Binding { name: String::from_str(list[i]), value: fields[i].clone() });
            i = i + 1;
        }
        let years: i64 = year as i64 - EPOCH_YEAR;
        inner.push(
            Binding { name: String::from_str(YEARS_SINCE_EPOCH), value: decimal_string(years) },
        );
        let out = TemplateContext { inner };
        assert(out@ =~= bindings_of(texts(fields@), year as int));
        Some(out)
    }

    /// The values of all placeholders at `datetime`.
    pub fn generate(datetime: &LocalTime) -> (out: TemplateContext)
        ensures
            out@ == context_bindings(datetime.secs(), datetime.zone()),
    {
        let list: Vec<&'static str> = specifier_list();
        let mut fields: Vec<String> = Vec::new();
        let mut i: usize = 0;
        while i < list.len()
            invariant
                i <= list@.len(),
                list@.len() == specifiers().len(),
                forall|k: int| 0 <= k < list@.len() ==> (#[trigger] list@[k])@ == specifiers()[k],
                fields@.len() == i,
                forall|k: int|
                    0 <= k < i ==> (#[trigger] fields@[k])@ == local_format(
                        datetime.secs(),
                        datetime.zone(),
                        specifiers()[k],
                    ),
            decreases list@.len() - i,
        {
            let specifier: &'static str = list[i];
            assert(specifiers().contains(specifiers()[i as int]));
            fields.push(datetime.listed_field(specifier));
            i = i + 1;
        }
        assert(texts(fields@) =~= local_fields(datetime.secs(), datetime.zone()));
        match TemplateContext::assemble(fields, datetime.year()) {
            Some(context) => context,
            None => vstd::pervasive::unreached(),
        }
    }

    /// The number of placeholders that have a value.
    pub fn len(&self) -> (out: usize)
        ensures
            out == self@.len(),
    {
        self.inner.len()
    }

    /// The value of the placeholder `name`, if it has one: that of the first
    /// binding of that name.
    pub fn get(&self, name: &str) -> (out: Option<&str>)
        ensures
            out matches Some(value) ==> exists|i: int|
                0 <= i < self@.len() && #[trigger] self@[i] == (name@, value@) && forall|k: int|
                    0 <= k < i ==> (#[trigger] self@[k]).0 != name@,
            out is None ==> forall|i: int| 0 <= i < self@.len() ==> (#[trigger] self@[i]).0 != name@,
    {
        let wanted: String = String::from_str(name);
        let mut i: usize = 0;
        while i < self.inner.len()
            invariant
                i <= self.inner@.len(),
                wanted@ == name@,
                forall|k: int| 0 <= k < i ==> (#[trigger] self@[k]).0 != name@,
            decreases self.inner@.len() - i,
        {
            if self.inner[i].name == wanted {
                assert(self@[i as int] == (name@, self.inner@[i as int].value@));
                return Some(self.inner[i].value.as_str());
            }
            i = i + 1;
        }
        None
    }

    /// Expands `template` with these values. It fails exactly where the
    /// expansion names a placeholder without a value.
    pub fn expand(&self, template: &str) -> (out: Option<String>)
        ensures
            out.is_some() == template_output(template@, self@).is_some(),
            out matches Some(text) ==> template_output(template@, self@) == Some(text@),
    {
        match render_template(template, self) {
            Ok(text) => Some(text),
            Err(_) => None,
        }
    }
}

/// The separator for `delimiter`.
pub fn separator_string(delimiter: &str) -> (out: String)
    ensures
        out@ == separator(delimiter@),
{
    proof {
        reveal_strlit(" ");
    }
    let mut out: String = String::from_str(" ");
    out.append(delimiter);
    out.append(" ");
    assert(out@ =~= separator(delimiter@));
    out
}

/// The instant in whole seconds, as the calendar takes it.
pub fn whole_seconds(instant_millis: u64) -> (out: i64)
    ensures
        out == instant_secs(instant_millis),
{
    (instant_millis / 1000) as i64
}

/// Renders a title: joins `segments` with the delimiter between single
/// spaces, and expands the placeholders for `instant_millis` seen in the
/// zone `timezone`. A zone name that the database does not hold stands for
/// universal time. The length of the title is the caller's to judge.
pub fn render(segments: &Vec<String>, delimiter: &str, instant_millis: u64, timezone: &str) -> (out:
    Result<String, TitleError>)
    ensures
        same_outcome(out, rendered(texts(segments@), delimiter@, instant_millis, timezone@)),
{
    let datetime: LocalTime = match LocalTime::new(whole_seconds(instant_millis), timezone) {
        Some(datetime) => datetime,
        None => {
            return Err(TitleError::InstantOutOfRange);
        },
    };
    let context: TemplateContext = TemplateContext::generate(&datetime);
    let template: String = join_strings(segments, separator_string(delimiter).as_str());
    match context.expand(template.as_str()) {
        Some(title) => Ok(title),
        None => Err(TitleError::InvalidTemplate),
    }
}

/// Judges the length of a rendered title: it is handed on where it holds
/// between `MIN_TITLE_LEN` and `MAX_TITLE_LEN` characters.
pub fn check_length(title: String) -> (out: Result<String, TitleError>)
    ensures
        acceptable_length(title@.len()) ==> out == Ok::<String, TitleError>(title),
        !acceptable_length(title@.len()) ==> out == Err::<String, TitleError>(
            TitleError::InvalidLength,
        ),
{
    let len: usize = title.as_str().unicode_len();
    if MIN_TITLE_LEN <= len && len <= MAX_TITLE_LEN {
        Ok(title)
    } else {
        Err(TitleError::InvalidLength)
    }
}

/// Rendering is a function of its inputs: any two outcomes of rendering the
/// same segments and delimiter at the same instant in the same zone are the
/// same error, or titles of the same characters.
pub proof fn lemma_render_deterministic(
    first: Result<String, TitleError>,
    second: Result<String, TitleError>,
    segments: Seq<Seq<char>>,
    delimiter: Seq<char>,
    instant_millis: u64,
    timezone: Seq<char>,
)
    requires
        same_outcome(first, rendered(segments, delimiter, instant_millis, timezone)),
        same_outcome(second, rendered(segments, delimiter, instant_millis, timezone)),
    ensures
        first is Ok <==> second is Ok,
        first is Ok ==> first->Ok_0@ == second->Ok_0@,
        first is Err ==> first->Err_0 == second->Err_0,
{
}

} // verus!
