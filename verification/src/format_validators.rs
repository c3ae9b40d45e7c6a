use vstd::prelude::*;
use crate::rows::text_view;

verus! {

/// The body of a refused request: for each field, the messages of its errors.
/// No field occurs twice.
#[derive(Debug)]
pub struct ErrorResponse {
    pub errors: Vec<(String, Vec<String>)>,
}

/// The message reported for an error that carries none.
pub open spec fn default_message() -> Seq<char> {
    "Invalid value"@
}

/// The messages of a field's errors, in order; `None` for an error without one.
pub open spec fn messages_view(v: Vec<Option<String>>) -> Seq<Option<Seq<char>>> {
    Seq::new(v@.len(), |i: int| text_view(v@[i]))
}

/// The reported message of an error.
pub open spec fn reported(m: Option<Seq<char>>) -> Seq<char> {
    match m {
        Some(t) => t,
        None => default_message(),
    }
}

/// The reported messages of a field's errors.
pub open spec fn reported_all(ms: Seq<Option<Seq<char>>>) -> Seq<Seq<char>> {
    ms.map_values(|m: Option<Seq<char>>| reported(m))
}

/// The field errors held by a `validator::ValidationErrors`: for each field
/// that has field-level errors, the messages of those errors in order.
pub uninterp spec fn field_errors_of(errors: validator::ValidationErrors) -> Map<
    Seq<char>,
    Seq<Option<Seq<char>>>,
>;

impl ErrorResponse {
    /// The field names and messages of the response, as text.
    pub open spec fn entries(self) -> Seq<(Seq<char>, Seq<Seq<char>>)> {
        Seq::new(
            self.errors@.len(),
            |i: int| (self.errors@[i].0@, self.errors@[i].1@.map_values(|m: String| m@)),
        )
    }

    /// No field occurs twice.
    pub open spec fn wf(self) -> bool {
        forall|i: int, j: int|
            0 <= i < j < self.errors@.len() ==> #[trigger] self.errors@[i].0@
                != #[trigger] self.errors@[j].0@
    }

    /// The response reports exactly the given field errors: every field that
    /// has errors occurs once, with the reported message of each of its errors.
    pub open spec fn reports(self, errs: Map<Seq<char>, Seq<Option<Seq<char>>>>) -> bool {
        &&& self.wf()
        &&& forall|i: int|
            0 <= i < self.entries().len() ==> errs.contains_key(#[trigger] self.entries()[i].0)
                && self.entries()[i].1 == reported_all(errs[self.entries()[i].0])
        &&& forall|k: Seq<char>|
            #[trigger] errs.contains_key(k) ==> exists|i: int|
                0 <= i < self.entries().len() && #[trigger] self.entries()[i].0 == k
    }

    /// The status code of the response: 400, a bad request.
    pub fn status_code(&self) -> (code: u16)
        ensures
            code == 400,
    {
        400
    }
}

/// Reads the field errors out of a `validator::ValidationErrors` through
/// `ValidationErrors::field_errors`, each error taken by its message. Claimed,
/// as the crate's source shows: each field that has field-level errors occurs
/// once, with its errors' messages in order, and no other field occurs. The
/// order of the fields (that of a `HashMap` walk) is left unsaid.
#[verifier::external_body]
fn field_error_messages(errors: &validator::ValidationErrors) -> (r: Vec<(String, Vec<Option<String>>)>)
    ensures
        forall|i: int|
            0 <= i < r@.len() ==> field_errors_of(*errors).contains_key(#[trigger] r@[i].0@)
                && field_errors_of(*errors)[r@[i].0@] == messages_view(r@[i].1),
        forall|k: Seq<char>|
            #[trigger] field_errors_of(*errors).contains_key(k) ==> exists|i: int|
                0 <= i < r@.len() && #[trigger] r@[i].0@ == k,
        forall|i: int, j: int| 0 <= i < j < r@.len() ==> #[trigger] r@[i].0@ != #[trigger] r@[j].0@,
{
    errors.field_errors().iter().map(
        |(field, errs)|
            (field.to_string(), errs.iter().map(|e| e.message.as_ref().map(|m| m.to_string())).collect()),
    ).collect()
}

/// Builds the response for field errors given as field names with the
/// messages of their errors: an error without a message reports "Invalid value".
pub fn error_response(fields: Vec<(String, Vec<Option<String>>)>) -> (r: ErrorResponse)
    ensures
        r.entries().len() == fields@.len(),
        forall|i: int|
            0 <= i < fields@.len() ==> #[trigger] r.entries()[i] == (
                fields@[i].0@,
                reported_all(messages_view(fields@[i].1)),
            ),
{
    let mut errors: Vec<(String, Vec<String>)> = Vec::new();
    let n = fields.len();
    let mut i: usize = 0;
    while i < n
        invariant
            n == fields@.len(),
            i <= n,
            errors@.len() == i,
            forall|k: int|
                0 <= k < i ==> #[trigger] errors@[k].0@ == fields@[k].0@
                    && errors@[k].1@.map_values(|m: String| m@) == reported_all(
                    messages_view(fields@[k].1),
                ),
        decreases n - i,
    {
        let field = fields[i].0.clone();
        let msgs = &fields[i].1;
        let mut out: Vec<String> = Vec::new();
        let m = msgs.len();
        let mut j: usize = 0;
        while j < m
            invariant
                m == msgs@.len(),
                j <= m,
                out@.len() == j,
                forall|k: int|
                    0 <= k < j ==> #[trigger] out@[k]@ == reported(text_view(msgs@[k])),
            decreases m - j,
        {
            let text = match &msgs[j] {
                Some(t) => t.clone(),
                None => String::from_str("Invalid value"),
            };
            out.push(text);
            j += 1;
        }
        proof {
            assert(out@.map_values(|s: String| s@) =~= reported_all(messages_view(*msgs)));
        }
        errors.push((field, out));
        i += 1;
    }
    let r = ErrorResponse { errors };
    proof {
        assert forall|k: int| 0 <= k < fields@.len() implies #[trigger] r.entries()[k] == (
            fields@[k].0@,
            reported_all(messages_view(fields@[k].1)),
        ) by {
            assert(r.errors@[k] == errors@[k]);
        }
    }
    r
}

/// Formats the validation errors of a request as the body of its refusal.
pub fn format_validation_errors(errors: &validator::ValidationErrors) -> (r: ErrorResponse)
    ensures
        r.reports(field_errors_of(*errors)),
{
    let fields = field_error_messages(errors);
    let r = error_response(fields);
    proof {
        let errs = field_errors_of(*errors);
        assert forall|i: int, j: int| 0 <= i < j < r.errors@.len() implies #[trigger] r.errors@[i].0@
            != #[trigger] r.errors@[j].0@ by {
            assert(r.entries()[i].0 == fields@[i].0@);
            assert(r.entries()[j].0 == fields@[j].0@);
        }
        assert forall|k: Seq<char>| #[trigger] errs.contains_key(k) implies exists|i: int|
            0 <= i < r.entries().len() && #[trigger] r.entries()[i].0 == k by {
            let i = choose|i: int| 0 <= i < fields@.len() && #[trigger] fields@[i].0@ == k;
            assert(r.entries()[i].0 == fields@[i].0@);
        }
    }
    r
}

/// Turns the validation errors of a request into the body of its refusal.
pub trait ValidationErrorFormatter {
    fn format_errors(&self) -> ErrorResponse;
}

impl ValidationErrorFormatter for validator::ValidationErrors {
    fn format_errors(&self) -> (r: ErrorResponse)
        ensures
            r.reports(field_errors_of(*self)),
    {
        format_validation_errors(self)
    }
}

} // verus!
