use vstd::prelude::*;

verus! {

/// The Unicode `White_Space` property, which `char::is_whitespace` decides:
/// U+0009 to U+000D, U+0020, U+0085, U+00A0, U+1680, U+2000 to U+200A,
/// U+2028, U+2029, U+202F, U+205F and U+3000.
pub open spec fn unicode_whitespace(c: char) -> bool {
    let u = c as u32;
    ||| 0x09 <= u <= 0x0d
    ||| u == 0x20
    ||| u == 0x85
    ||| u == 0xa0
    ||| u == 0x1680
    ||| 0x2000 <= u <= 0x200a
    ||| u == 0x2028
    ||| u == 0x2029
    ||| u == 0x202f
    ||| u == 0x205f
    ||| u == 0x3000
}

/// Whether `char::is_alphanumeric` holds of a character (Unicode `Alphabetic`
/// or `Numeric`).
pub uninterp spec fn unicode_alphanumeric(c: char) -> bool;

/// Calls `char::is_whitespace`. Claimed, as its documentation says: it holds
/// exactly of the `White_Space` characters listed in [`unicode_whitespace`].
#[verifier::external_body]
fn char_is_whitespace(c: char) -> (b: bool)
    ensures
        b == unicode_whitespace(c),
{
    c.is_whitespace()
}

/// Calls `char::is_alphanumeric`; its result is named [`unicode_alphanumeric`].
#[verifier::external_body]
fn char_is_alphanumeric(c: char) -> (b: bool)
    ensures
        b == unicode_alphanumeric(c),
{
    c.is_alphanumeric()
}

/// The characters of a text.
fn chars_of(s: &str) -> (v: Vec<char>)
    ensures
        v@ == s@,
{
    let mut v: Vec<char> = Vec::new();
    for c in it: s.chars()
        invariant
            v@ == it.seq().take(it.index() as int),
            it.seq() == s@,
    {
        v.push(c);
    }
    v
}

/// The text without its leading white space.
pub open spec fn trim_start(s: Seq<char>) -> Seq<char>
    decreases s.len(),
{
    if s.len() > 0 && unicode_whitespace(s[0]) {
        trim_start(s.subrange(1, s.len() as int))
    } else {
        s
    }
}

/// The text without its trailing white space.
pub open spec fn trim_end(s: Seq<char>) -> Seq<char>
    decreases s.len(),
{
    if s.len() > 0 && unicode_whitespace(s[s.len() - 1]) {
        trim_end(s.subrange(0, s.len() - 1))
    } else {
        s
    }
}

/// The text without leading and trailing white space, as `str::trim` gives it.
pub open spec fn trimmed(s: Seq<char>) -> Seq<char> {
    trim_end(trim_start(s))
}

/// Why a query value is refused.
#[derive(Debug, Clone, Copy, PartialEq, Eq, Structural)]
pub enum ValueFault {
    /// The value is an empty quoted string, `""`, possibly padded with white space.
    EmptyString,
    /// The value holds a character that is neither a letter nor a digit.
    SpecialChar,
}

impl ValueFault {
    /// The error code reported for the fault.
    pub open spec fn code_text(self) -> Seq<char> {
        match self {
            ValueFault::EmptyString => "empty_string"@,
            ValueFault::SpecialChar => "special_char"@,
        }
    }

    /// The message reported for the fault.
    pub open spec fn message_text(self) -> Seq<char> {
        match self {
            ValueFault::EmptyString => "Field can not be empty string"@,
            ValueFault::SpecialChar => "Field can not be special character"@,
        }
    }

    /// The error code reported for the fault.
    pub fn code(&self) -> (c: &'static str)
        ensures
            c@ == self.code_text(),
    {
        match self {
            ValueFault::EmptyString => "empty_string",
            ValueFault::SpecialChar => "special_char",
        }
    }

    /// The message reported for the fault.
    pub fn message(&self) -> (m: &'static str)
        ensures
            m@ == self.message_text(),
    {
        match self {
            ValueFault::EmptyString => "Field can not be empty string",
            ValueFault::SpecialChar => "Field can not be special character",
        }
    }
}

/// Whether some character of the text is neither a letter nor a digit.
pub open spec fn has_special_char(s: Seq<char>) -> bool {
    exists|i: int| 0 <= i < s.len() && !unicode_alphanumeric(#[trigger] s[i])
}

/// The fault of a query value, if any: an empty quoted string is checked
/// first, then characters other than letters and digits.
pub open spec fn value_fault(s: Seq<char>) -> Option<ValueFault> {
    if trimmed(s) == seq!['"', '"'] {
        Some(ValueFault::EmptyString)
    } else if has_special_char(s) {
        Some(ValueFault::SpecialChar)
    } else {
        None
    }
}

proof fn lemma_trim_start_stable(s: Seq<char>, i: int)
    requires
        0 <= i <= s.len(),
        forall|j: int| 0 <= j < i ==> unicode_whitespace(#[trigger] s[j]),
    ensures
        trim_start(s) == trim_start(s.subrange(i, s.len() as int)),
    decreases i,
{
    if i > 0 {
        assert(s.len() > 0 && unicode_whitespace(s[0]));
        let t = s.subrange(1, s.len() as int);
        assert forall|j: int| 0 <= j < i - 1 implies unicode_whitespace(#[trigger] t[j]) by {
            assert(t[j] == s[j + 1]);
        }
        lemma_trim_start_stable(t, i - 1);
        assert(t.subrange(i - 1, t.len() as int) =~= s.subrange(i, s.len() as int));
    } else {
        assert(s.subrange(0, s.len() as int) =~= s);
    }
}

proof fn lemma_trim_end_stable(s: Seq<char>, k: int)
    requires
        0 <= k <= s.len(),
        forall|j: int| k <= j < s.len() ==> unicode_whitespace(#[trigger] s[j]),
    ensures
        trim_end(s) == trim_end(s.subrange(0, k)),
    decreases s.len() - k,
{
    if k < s.len() {
        assert(unicode_whitespace(s[s.len() - 1]));
        let t = s.subrange(0, s.len() - 1);
        assert forall|j: int| k <= j < t.len() implies unicode_whitespace(#[trigger] t[j]) by {
            assert(t[j] == s[j]);
        }
        lemma_trim_end_stable(t, k);
        assert(t.subrange(0, k) =~= s.subrange(0, k));
    } else {
        assert(s.subrange(0, k) =~= s);
    }
}

/// Checks a query value for an empty quoted string and for characters other
/// than letters and digits (see [`value_fault`]).
pub fn check_value(val: &str) -> (r: Result<(), ValueFault>)
    ensures
        r == match value_fault(val@) {
            Some(f) => Err::<(), ValueFault>(f),
            None => Ok::<(), ValueFault>(()),
        },
{
    let cs = chars_of(val);
    let n = cs.len();
    let mut lo: usize = 0;
    while lo < n && char_is_whitespace(cs[lo])
        invariant
            cs@ == val@,
            n == cs@.len(),
            lo <= n,
            forall|j: int| 0 <= j < lo ==> unicode_whitespace(#[trigger] cs@[j]),
        decreases n - lo,
    {
        lo += 1;
    }
    proof {
        lemma_trim_start_stable(cs@, lo as int);
        let rest = cs@.subrange(lo as int, n as int);
        assert(rest.len() == 0 || !unicode_whitespace(rest[0]));
        assert(trim_start(cs@) == rest);
    }
    let mut hi: usize = n;
    while hi > lo && char_is_whitespace(cs[hi - 1])
        invariant
            cs@ == val@,
            n == cs@.len(),
            lo <= hi <= n,
            forall|j: int| hi <= j < n ==> unicode_whitespace(#[trigger] cs@[j]),
        decreases hi - lo,
    {
        hi -= 1;
    }
    proof {
        let rest = cs@.subrange(lo as int, n as int);
        assert forall|j: int| hi - lo <= j < rest.len() implies unicode_whitespace(#[trigger] rest[j]) by {
            assert(rest[j] == cs@[lo + j]);
        }
        lemma_trim_end_stable(rest, hi - lo);
        let mid = rest.subrange(0, hi - lo);
        assert(mid =~= cs@.subrange(lo as int, hi as int));
        assert(mid.len() == 0 || !unicode_whitespace(mid[mid.len() - 1]));
        assert(trim_end(mid) == mid);
        assert(trimmed(val@) == mid);
    }
    if hi - lo == 2 && cs[lo] == '"' && cs[lo + 1] == '"' {
        proof {
            assert(cs@.subrange(lo as int, hi as int) =~= seq!['"', '"']);
        }
        return Err(ValueFault::EmptyString);
    }
    proof {
        let mid = cs@.subrange(lo as int, hi as int);
        if mid == seq!['"', '"'] {
            assert(mid[0] == cs@[lo as int]);
            assert(mid[1] == cs@[lo + 1]);
        }
    }
    let mut i: usize = 0;
    while i < n
        invariant
            cs@ == val@,
            n == cs@.len(),
            i <= n,
            forall|j: int| 0 <= j < i ==> unicode_alphanumeric(#[trigger] cs@[j]),
            trimmed(val@) != seq!['"', '"'],
        decreases n - i,
    {
        if !char_is_alphanumeric(cs[i]) {
            assert(!unicode_alphanumeric(cs@[i as int]));
            return Err(ValueFault::SpecialChar);
        }
        i += 1;
    }
    Ok(())
}

#[verifier::external_type_specification]
pub struct ExValidationError(validator::ValidationError);

#[verifier::external_type_specification]
#[verifier::external_body]
pub struct ExValidationErrors(validator::ValidationErrors);

#[verifier::external_type_specification]
#[verifier::external_body]
pub struct ExJsonValue(serde_json::Value);

/// `ValidationError::new` of the `validator` crate, as its source shows it:
/// the error has the given code, no message and no parameters.
pub assume_specification[ validator::ValidationError::new ](code: &'static str) -> (e: validator::ValidationError)
    ensures
        e.code@ == code@,
        e.message is None,
        e.params@.dom().is_empty(),
;

/// The field check that query validation runs on the searched value: it is
/// refused when it is an empty quoted string (`empty_string`) or when it holds
/// a character other than a letter or digit (`special_char`), with the
/// fault's code and message and no parameters.
pub fn custom_validation(val: &str) -> (r: Result<(), validator::ValidationError>)
    ensures
        match value_fault(val@) {
            None => r is Ok,
            Some(fault) => match r {
                Err(e) => e.code@ == fault.code_text() && e.params@.dom().is_empty() && match e.message {
                    Some(m) => m@ == fault.message_text(),
                    None => false,
                },
                Ok(_) => false,
            },
        },
{
    match check_value(val) {
        Ok(()) => Ok(()),
        Err(fault) => {
            let mut err = validator::ValidationError::new(fault.code());
            err.message = Some(std::borrow::Cow::Borrowed(fault.message()));
            Err(err)
        },
    }
}

/// A value that passes the field check consists of letters and digits only,
/// and it is not an empty quoted string.
pub proof fn lemma_accepted_values_are_alphanumeric(s: Seq<char>)
    requires
        value_fault(s) is None,
    ensures
        forall|i: int| 0 <= i < s.len() ==> unicode_alphanumeric(#[trigger] s[i]),
        trimmed(s) != seq!['"', '"'],
{
}

/// A value is refused as an empty string exactly when its trimmed text is `""`;
/// it is refused for a special character exactly when its trimmed text is not
/// `""` and some character of it is not alphanumeric; and it is accepted exactly
/// when its trimmed text is not `""` and every character is alphanumeric.
pub proof fn lemma_value_fault_exact(s: Seq<char>)
    ensures
        value_fault(s) == Some(ValueFault::EmptyString) <==> trimmed(s) == seq!['"', '"'],
        value_fault(s) == Some(ValueFault::SpecialChar) <==> (trimmed(s) != seq!['"', '"']
            && exists|i: int| 0 <= i < s.len() && !unicode_alphanumeric(#[trigger] s[i])),
        value_fault(s) is None <==> (trimmed(s) != seq!['"', '"'] && forall|i: int|
            0 <= i < s.len() ==> unicode_alphanumeric(#[trigger] s[i])),
{
    if value_fault(s) is None {
        assert forall|i: int| 0 <= i < s.len() implies unicode_alphanumeric(#[trigger] s[i]) by {
            if !unicode_alphanumeric(s[i]) {
                assert(has_special_char(s));
            }
        }
    }
}

proof fn lemma_trim_start_shape(s: Seq<char>) -> (a: int)
    ensures
        0 <= a <= s.len(),
        trim_start(s) == s.subrange(a, s.len() as int),
        forall|j: int| 0 <= j < a ==> unicode_whitespace(#[trigger] s[j]),
        a < s.len() ==> !unicode_whitespace(s[a]),
    decreases s.len(),
{
    if s.len() > 0 && unicode_whitespace(s[0]) {
        let t = s.subrange(1, s.len() as int);
        let a1 = lemma_trim_start_shape(t);
        assert(t.subrange(a1, t.len() as int) =~= s.subrange(a1 + 1, s.len() as int));
        assert forall|j: int| 0 <= j < a1 + 1 implies unicode_whitespace(#[trigger] s[j]) by {
            if j > 0 {
                assert(s[j] == t[j - 1]);
            }
        }
        assert(a1 + 1 < s.len() ==> s[a1 + 1] == t[a1]);
        a1 + 1
    } else {
        assert(s.subrange(0, s.len() as int) =~= s);
        0
    }
}

proof fn lemma_trim_end_shape(s: Seq<char>) -> (b: int)
    ensures
        0 <= b <= s.len(),
        trim_end(s) == s.subrange(0, b),
        forall|j: int| b <= j < s.len() ==> unicode_whitespace(#[trigger] s[j]),
        b > 0 ==> !unicode_whitespace(s[b - 1]),
    decreases s.len(),
{
    if s.len() > 0 && unicode_whitespace(s[s.len() - 1]) {
        let t = s.subrange(0, s.len() - 1);
        let b1 = lemma_trim_end_shape(t);
        assert(t.subrange(0, b1) =~= s.subrange(0, b1));
        assert forall|j: int| b1 <= j < s.len() implies unicode_whitespace(#[trigger] s[j]) by {
            if j < s.len() - 1 {
                assert(s[j] == t[j]);
            }
        }
        assert(b1 > 0 ==> s[b1 - 1] == t[b1 - 1]);
        b1
    } else {
        assert(s.subrange(0, s.len() as int) =~= s);
        s.len() as int
    }
}

/// The trimmed text is the part of the text between its leading and trailing
/// white space: a contiguous part, with only white space before and after it,
/// that neither starts nor ends with white space.
pub proof fn lemma_trimmed_shape(s: Seq<char>)
    ensures
        exists|a: int, b: int|
            {
                &&& 0 <= a <= b <= s.len()
                &&& trimmed(s) == s.subrange(a, b)
                &&& forall|j: int| 0 <= j < a ==> unicode_whitespace(#[trigger] s[j])
                &&& forall|j: int| b <= j < s.len() ==> unicode_whitespace(#[trigger] s[j])
                &&& a < b ==> !unicode_whitespace(s[a]) && !unicode_whitespace(s[b - 1])
            },
{
    let a = lemma_trim_start_shape(s);
    let t = s.subrange(a, s.len() as int);
    let c = lemma_trim_end_shape(t);
    let b = a + c;
    assert(t.subrange(0, c) =~= s.subrange(a, b));
    assert forall|j: int| b <= j < s.len() implies unicode_whitespace(#[trigger] s[j]) by {
        assert(s[j] == t[j - a]);
    }
    if a < b {
        assert(s[a] == t[0]);
        assert(s[b - 1] == t[c - 1]);
    }
}

} // verus!
