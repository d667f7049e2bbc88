//! Field validation of requests: the rules, the errors they report, and the
//! answer built from those errors.

use vstd::prelude::*;
use validator::{ValidateEmail, ValidateLength};
use crate::text::{text_of, same_text, is_digit};
use crate::errors::AppError;

verus! {

/// The errors of a validation, by field: each field with the errors it got.
pub type ErrorEntries = Seq<(Seq<char>, Seq<ErrorView>)>;

/// What a validation error says: its code, and the message where it has one.
pub struct ErrorView {
    pub code: Seq<char>,
    pub message: Option<Seq<char>>,
}

/// One rule that a field broke.
#[derive(Debug)]
pub struct ValidationError {
    pub code: String,
    pub message: Option<String>,
}

/// The view of an optional string.
pub open spec fn opt_text(s: Option<String>) -> Option<Seq<char>> {
    match s {
        Some(t) => Some(t@),
        None => None,
    }
}

impl View for ValidationError {
    type V = ErrorView;

    open spec fn view(&self) -> ErrorView {
        ErrorView { code: self.code@, message: opt_text(self.message) }
    }
}

impl ValidationError {
    /// An error with the given code and no message.
    pub fn new(code: &str) -> (e: Self)
        ensures
            e@ == (ErrorView { code: code@, message: None }),
    {
        ValidationError { code: text_of(code), message: None }
    }

    /// The same error, with `message` as its message.
    pub fn with_message(self, message: String) -> (e: Self)
        ensures
            e@ == (ErrorView { code: self@.code, message: Some(message@) }),
    {
        ValidationError { code: self.code, message: Some(message) }
    }
}

/// The errors of one field.
#[derive(Debug)]
pub struct FieldEntry {
    pub field: String,
    pub errors: Vec<ValidationError>,
}

/// The view of the errors of one field: its name and its errors in the order
/// they were added.
pub open spec fn entry_view(e: FieldEntry) -> (Seq<char>, Seq<ErrorView>) {
    (e.field@, e.errors@.map_values(|x: ValidationError| x@))
}

/// Whether `field` has errors in `entries`.
pub open spec fn has_field(entries: Seq<(Seq<char>, Seq<ErrorView>)>, field: Seq<char>) -> bool {
    exists|i: int| 0 <= i < entries.len() && #[trigger] entries[i].0 == field
}

/// Whether no field occurs twice in `entries`.
pub open spec fn fields_distinct(entries: Seq<(Seq<char>, Seq<ErrorView>)>) -> bool {
    forall|i: int, j: int|
        0 <= i < entries.len() && 0 <= j < entries.len() && i != j ==> #[trigger] entries[i].0
            != #[trigger] entries[j].0
}

/// `entries` with `err` added to the errors of `field`: appended to that
/// field's list where it has one, else as a new field at the end.
pub open spec fn add_error(
    entries: Seq<(Seq<char>, Seq<ErrorView>)>,
    field: Seq<char>,
    err: ErrorView,
) -> Seq<(Seq<char>, Seq<ErrorView>)> {
    if has_field(entries, field) {
        let i = choose|i: int| 0 <= i < entries.len() && #[trigger] entries[i].0 == field;
        entries.update(i, (field, entries[i].1.push(err)))
    } else {
        entries.push((field, seq![err]))
    }
}

/// `entries` with an error added to `field` where a rule `failed`.
pub open spec fn add_if(
    entries: Seq<(Seq<char>, Seq<ErrorView>)>,
    failed: bool,
    field: Seq<char>,
    code: Seq<char>,
    message: Option<Seq<char>>,
) -> Seq<(Seq<char>, Seq<ErrorView>)> {
    if failed {
        add_error(entries, field, ErrorView { code, message })
    } else {
        entries
    }
}

/// All the errors of a validation, grouped by field.
#[derive(Debug)]
pub struct ValidationErrors {
    fields: Vec<FieldEntry>,
}

impl View for ValidationErrors {
    type V = Seq<(Seq<char>, Seq<ErrorView>)>;

    closed spec fn view(&self) -> Seq<(Seq<char>, Seq<ErrorView>)> {
        self.fields@.map_values(|e: FieldEntry| entry_view(e))
    }
}

/// A read-only look at the errors of a validation, by field name.
pub struct FieldErrors<'a> {
    errors: &'a ValidationErrors,
}

impl<'a> View for FieldErrors<'a> {
    type V = Seq<(Seq<char>, Seq<ErrorView>)>;

    closed spec fn view(&self) -> Seq<(Seq<char>, Seq<ErrorView>)> {
        self.errors@
    }
}

impl<'a> FieldErrors<'a> {
    /// Whether `field` has errors.
    pub fn contains_key(&self, field: &str) -> (r: bool)
        ensures
            r == has_field(self@, field@),
    {
        self.errors.contains_field(field)
    }
}

impl ValidationErrors {
    #[verifier::type_invariant]
    spec fn inv(self) -> bool {
        fields_distinct(self@)
    }

    /// No error at all.
    pub fn new() -> (e: Self)
        ensures
            e@ == Seq::<(Seq<char>, Seq<ErrorView>)>::empty(),
    {
        let e = ValidationErrors { fields: Vec::new() };
        assert(e@ =~= Seq::<(Seq<char>, Seq<ErrorView>)>::empty());
        e
    }

    /// Whether there is no error.
    pub fn is_empty(&self) -> (r: bool)
        ensures
            r == (self@.len() == 0),
    {
        self.fields.len() == 0
    }

    /// The place of `field` among the fields with errors.
    fn find_field(&self, field: &str) -> (r: Option<usize>)
        ensures
            match r {
                Some(i) => i < self@.len() && self@[i as int].0 == field@,
                None => !has_field(self@, field@),
            },
    {
        let mut i: usize = 0;
        while i < self.fields.len()
            invariant
                i <= self.fields@.len(),
                self@ == self.fields@.map_values(|e: FieldEntry| entry_view(e)),
                forall|j: int| 0 <= j < i ==> #[trigger] self@[j].0 != field@,
            decreases self.fields@.len() - i,
        {
            if same_text(self.fields[i].field.as_str(), field) {
                return Some(i);
            }
            i = i + 1;
        }
        None
    }

    /// Whether `field` has errors.
    pub fn contains_field(&self, field: &str) -> (r: bool)
        ensures
            r == has_field(self@, field@),
    {
        self.find_field(field).is_some()
    }

    /// The errors by field, for lookups by name.
    pub fn field_errors(&self) -> (f: FieldErrors<'_>)
        ensures
            f@ == self@,
    {
        FieldErrors { errors: self }
    }

    /// Adds `error` to the errors of `field`.
    pub fn add(&mut self, field: &str, error: ValidationError)
        ensures
            final(self)@ == add_error(old(self)@, field@, error@),
    {
        proof {
            use_type_invariant(&*self);
        }
        let found = self.find_field(field);
        let mut fields: Vec<FieldEntry> = Vec::new();
        std::mem::swap(&mut fields, &mut self.fields);
        let ghost before = fields@.map_values(|e: FieldEntry| entry_view(e));
        assert(before == old(self)@);
        let ghost err = error@;
        match found {
            Some(i) => {
                let mut entry = fields.remove(i);
                entry.errors.push(error);
                fields.insert(i, entry);
                proof {
                    let after = fields@.map_values(|e: FieldEntry| entry_view(e));
                    assert(entry_view(entry).1 =~= before[i as int].1.push(err));
                    assert(after =~= before.update(i as int, (field@, before[i as int].1.push(err))));
                    let j = choose|j: int| 0 <= j < before.len() && #[trigger] before[j].0 == field@;
                    assert(j == i);
                }
            },
            None => {
                let entry = FieldEntry { field: text_of(field), errors: vec![error] };
                fields.push(entry);
                proof {
                    let after = fields@.map_values(|e: FieldEntry| entry_view(e));
                    assert(entry_view(entry).1 =~= seq![err]);
                    assert(after =~= before.push((field@, seq![err])));
                }
            },
        }
        self.fields = fields;
    }

    /// Adds an error with `code` and `message` to `field` where `failed`.
    fn add_if_failed(&mut self, failed: bool, field: &str, code: &str, message: Option<&str>)
        ensures
            final(self)@ == add_if(old(self)@, failed, field@, code@, match message {
                Some(m) => Some(m@),
                None => None,
            }),
    {
        if failed {
            let e = ValidationError {
                code: text_of(code),
                message: match message {
                    Some(m) => Some(text_of(m)),
                    None => None,
                },
            };
            self.add(field, e);
        }
    }
}

/// Whether a length lies within the optional bounds, as validator's `length`
/// rule decides without `equal`.
pub open spec fn length_within(n: nat, min: Option<u64>, max: Option<u64>) -> bool {
    (match min {
        Some(m) => n >= m,
        None => true,
    }) && (match max {
        Some(m) => n <= m,
        None => true,
    })
}

/// Whether an optional string meets a length rule: an absent one always does.
pub open spec fn opt_length_within(s: Option<String>, min: Option<u64>, max: Option<u64>) -> bool {
    match s {
        Some(t) => length_within(t@.len(), min, max),
        None => true,
    }
}

/// validator's `ValidateLength::validate_length` on a string, without `equal`:
/// it counts the string's characters and compares the count with the bounds.
#[verifier::external_body]
fn text_length_valid(s: &str, min: Option<u64>, max: Option<u64>) -> (r: bool)
    ensures
        r == length_within(s@.len(), min, max),
{
    s.validate_length(min, max, None)
}

/// validator's `ValidateLength::validate_length` on a list, without `equal`:
/// it compares the number of items with the bounds.
#[verifier::external_body]
fn list_length_valid<T>(v: &Vec<T>, min: Option<u64>, max: Option<u64>) -> (r: bool)
    ensures
        r == length_within(v@.len(), min, max),
{
    v.validate_length(min, max, None)
}

/// Whether validator's `email` rule accepts a text (the HTML5 form of an
/// address, with a fallback through IDNA for the domain).
pub uninterp spec fn email_valid(s: Seq<char>) -> bool;

/// validator's `ValidateEmail::validate_email` on a string. Beyond naming its
/// answer, the contract states only what the source shows at its start: an
/// accepted address is not empty and holds an `@`.
#[verifier::external_body]
fn text_email_valid(s: &str) -> (r: bool)
    ensures
        r == email_valid(s@),
        r ==> s@.len() > 0 && s@.contains('@'),
{
    s.validate_email()
}

/// Whether a string is accepted by the `email` rule.
pub fn check_email(s: &str) -> (r: bool)
    ensures
        r == email_valid(s@),
{
    text_email_valid(s)
}

/// Whether a string meets a `length` rule.
pub fn check_length(s: &str, min: Option<u64>, max: Option<u64>) -> (r: bool)
    ensures
        r == length_within(s@.len(), min, max),
{
    text_length_valid(s, min, max)
}

/// Whether an optional string meets a `length` rule; an absent one does.
pub fn check_opt_length(s: &Option<String>, min: Option<u64>, max: Option<u64>) -> (r: bool)
    ensures
        r == opt_length_within(*s, min, max),
{
    match s {
        Some(t) => text_length_valid(t.as_str(), min, max),
        None => true,
    }
}

/// Whether a list meets a `length` rule.
pub fn check_list_length<T>(v: &Vec<T>, min: Option<u64>, max: Option<u64>) -> (r: bool)
    ensures
        r == length_within(v@.len(), min, max),
{
    list_length_valid(v, min, max)
}

/// Whether a text has the shape of a birthday, `xx-xx-xxxx`: ten characters,
/// dashes third and sixth, ASCII digits everywhere else.
pub open spec fn birthday_shape(s: Seq<char>) -> bool {
    &&& s.len() == 10
    &&& s[2] == '-'
    &&& s[5] == '-'
    &&& forall|i: int| 0 <= i < 10 && i != 2 && i != 5 ==> #[trigger] is_digit(s[i])
}

/// Whether an optional birthday has the right shape; an absent one does.
pub open spec fn opt_birthday_shape(s: Option<String>) -> bool {
    match s {
        Some(t) => birthday_shape(t@),
        None => true,
    }
}

/// Whether an optional birthday is absent or has the shape `xx-xx-xxxx`.
pub fn check_birthday(s: &Option<String>) -> (r: bool)
    ensures
        r == opt_birthday_shape(*s),
{
    match s {
        None => true,
        Some(owned) => {
            let t = owned.as_str();
            if t.unicode_len() != 10 {
                return false;
            }
            let mut i: usize = 0;
            while i < 10
                invariant
                    t@ == owned@,
                    opt_birthday_shape(*s) == birthday_shape(owned@),
                    t@.len() == 10,
                    i <= 10,
                    i > 2 ==> t@[2] == '-',
                    i > 5 ==> t@[5] == '-',
                    forall|j: int| 0 <= j < i && j != 2 && j != 5 ==> #[trigger] is_digit(t@[j]),
                decreases 10 - i,
            {
                let c = t.get_char(i);
                if i == 2 || i == 5 {
                    if c != '-' {
                        assert(!birthday_shape(owned@));
                        return false;
                    }
                } else if c < '0' || c > '9' {
                    assert(!is_digit(t@[i as int]));
                    assert(!birthday_shape(owned@));
                    return false;
                }
                i = i + 1;
            }
            true
        },
    }
}

/// Adds an error where a rule failed; used by the `validate` methods.
pub(crate) fn record(
    errors: &mut ValidationErrors,
    failed: bool,
    field: &str,
    code: &str,
    message: Option<&str>,
)
    ensures
        final(errors)@ == add_if(old(errors)@, failed, field@, code@, match message {
            Some(m) => Some(m@),
            None => None,
        }),
{
    errors.add_if_failed(failed, field, code, message);
}

/// The result of a validation: `Ok` when no rule failed, else the errors.
pub(crate) fn finish(errors: ValidationErrors) -> (r: Result<(), ValidationErrors>)
    ensures
        match r {
            Ok(_) => errors@.len() == 0,
            Err(e) => e@ == errors@ && errors@.len() > 0,
        },
{
    if errors.is_empty() {
        Ok(())
    } else {
        Err(errors)
    }
}

/// The messages among `errs`, in order; errors without a message give none.
pub open spec fn messages_of(errs: Seq<ErrorView>) -> Seq<Seq<char>>
    decreases errs.len(),
{
    if errs.len() == 0 {
        Seq::empty()
    } else {
        let rest = messages_of(errs.drop_last());
        match errs.last().message {
            Some(m) => rest.push(m),
            None => rest,
        }
    }
}

/// For each field with errors, its name and its messages.
pub open spec fn message_lists(entries: Seq<(Seq<char>, Seq<ErrorView>)>) -> Seq<(Seq<char>, Seq<Seq<char>>)> {
    entries.map_values(|e: (Seq<char>, Seq<ErrorView>)| (e.0, messages_of(e.1)))
}

/// The compact JSON text that serde_json writes for an object whose keys are
/// the given names and whose values are arrays of the given strings.
pub uninterp spec fn json_object_of_lists(entries: Seq<(Seq<char>, Seq<Seq<char>>)>) -> Seq<char>;

/// serde_json: builds a `Map` with one `Value::Array` of strings per entry,
/// inserted in order, and writes it with `to_string` (whose failure, which a
/// map of strings cannot cause, gives "Validation error"). The contract names
/// the text and states nothing more of it.
#[verifier::external_body]
fn json_object_text(entries: &Vec<(String, Vec<String>)>) -> (s: String)
    ensures
        s@ == json_object_of_lists(entries@.map_values(
            |e: (String, Vec<String>)| (e.0@, e.1@.map_values(|m: String| m@)),
        )),
{
    let mut map = serde_json::Map::new();
    for (field, messages) in entries.iter() {
        map.insert(field.clone(), serde_json::Value::from(messages.clone()));
    }
    serde_json::to_string(&map).unwrap_or_else(|_| "Validation error".to_string())
}

/// The messages of one field's errors.
fn messages_in(errs: &Vec<ValidationError>) -> (m: Vec<String>)
    ensures
        m@.map_values(|s: String| s@) == messages_of(errs@.map_values(|x: ValidationError| x@)),
{
    let mut m: Vec<String> = Vec::new();
    let mut i: usize = 0;
    while i < errs.len()
        invariant
            i <= errs@.len(),
            m@.map_values(|s: String| s@) == messages_of(errs@.subrange(0, i as int).map_values(
                |x: ValidationError| x@,
            )),
        decreases errs@.len() - i,
    {
        let ghost prev = errs@.subrange(0, i as int).map_values(|x: ValidationError| x@);
        let ghost next = errs@.subrange(0, i + 1).map_values(|x: ValidationError| x@);
        assert(next.drop_last() =~= prev);
        assert(next.last() == errs@[i as int]@);
        match &errs[i].message {
            Some(text) => {
                m.push(text.clone());
                assert(m@.map_values(|s: String| s@) =~= messages_of(prev).push(text@));
            },
            None => {
                assert(m@.map_values(|s: String| s@) =~= messages_of(prev));
            },
        }
        i = i + 1;
    }
    assert(errs@.subrange(0, errs@.len() as int) =~= errs@);
    m
}

/// For each field with errors, its name and its messages.
pub fn field_message_lists(errors: &ValidationErrors) -> (r: Vec<(String, Vec<String>)>)
    ensures
        r@.map_values(|e: (String, Vec<String>)| (e.0@, e.1@.map_values(|m: String| m@)))
            == message_lists(errors@),
{
    let mut r: Vec<(String, Vec<String>)> = Vec::new();
    let mut i: usize = 0;
    let n = errors.fields.len();
    while i < n
        invariant
            n == errors.fields@.len(),
            i <= n,
            errors@ == errors.fields@.map_values(|e: FieldEntry| entry_view(e)),
            r@.len() == i,
            forall|j: int| 0 <= j < i ==> (#[trigger] r@[j]).0@ == errors@[j].0
                && r@[j].1@.map_values(|m: String| m@) == messages_of(errors@[j].1),
        decreases n - i,
    {
        let entry = &errors.fields[i];
        let msgs = messages_in(&entry.errors);
        r.push((entry.field.clone(), msgs));
        i = i + 1;
    }
    assert(r@.map_values(|e: (String, Vec<String>)| (e.0@, e.1@.map_values(|m: String| m@)))
        =~= message_lists(errors@));
    r
}

/// The answer to a request that failed validation: `BadRequest` with a JSON
/// object that lists, for every field with errors, that field's messages.
pub fn validation_errors_to_response(errors: ValidationErrors) -> (e: AppError)
    ensures
        e matches AppError::BadRequest(m) && m@ == json_object_of_lists(message_lists(errors@)),
{
    let lists = field_message_lists(&errors);
    AppError::BadRequest(json_object_text(&lists))
}

} // verus!
