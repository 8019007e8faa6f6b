//! The validated email address type and the email-format grammar it enforces.
//!
//! An address is `local-part@domain`: a non-empty local part of permitted
//! characters, one `@` separator, and a domain of one or more dot-separated
//! labels, each label 1 to 63 characters of letters, digits and hyphens,
//! neither starting nor ending with a hyphen.

use vstd::prelude::*;

verus! {

/// An ASCII letter or digit.
pub open spec fn is_alnum(c: char) -> bool {
    (97 <= c as u32 && c as u32 <= 122)  // 'a'..='z'
    || (65 <= c as u32 && c as u32 <= 90)  // 'A'..='Z'
    || (48 <= c as u32 && c as u32 <= 57)  // '0'..='9'
}

/// A character permitted inside a domain label: a letter, a digit or a hyphen.
pub open spec fn is_label_char(c: char) -> bool {
    is_alnum(c) || c == '-'
}

/// A character permitted in the local part of an address.
pub open spec fn is_local_char(c: char) -> bool {
    is_alnum(c) || c == '.' || c == '!' || c == '#' || c == '$' || c == '%' || c == '&'
        || c == '\'' || c == '*' || c == '+' || c == '/' || c == '=' || c == '?' || c == '^'
        || c == '_' || c == '`' || c == '{' || c == '|' || c == '}' || c == '~' || c == '-'
}

/// A well-formed local part: non-empty, every character permitted.
pub open spec fn valid_local(s: Seq<char>) -> bool {
    s.len() > 0 && forall|i: int| 0 <= i < s.len() ==> is_local_char(s[i])
}

/// A well-formed domain label: 1 to 63 characters, letters, digits and
/// hyphens only, neither starting nor ending with a hyphen.
pub open spec fn valid_label(s: Seq<char>) -> bool {
    1 <= s.len() <= 63 && s[0] != '-' && s[s.len() - 1] != '-'
        && forall|i: int| 0 <= i < s.len() ==> is_label_char(s[i])
}

/// A well-formed domain: one label, or a label, a dot, and a well-formed
/// rest of the domain.
pub open spec fn valid_domain(s: Seq<char>) -> bool
    decreases s.len(),
{
    valid_label(s) || (exists|i: int|
        0 < i < s.len() && s[i] == '.' && #[trigger] valid_label(s.subrange(0, i))
            && valid_domain(s.subrange(i + 1, s.len() as int)))
}

/// A well-formed address: a valid local part, one `@`, a valid domain.
pub open spec fn valid_email(s: Seq<char>) -> bool {
    exists|at: int|
        0 < at < s.len() && s[at] == '@' && #[trigger] valid_local(s.subrange(0, at))
            && valid_domain(s.subrange(at + 1, s.len() as int))
}

/// A domain splits only at its first dot: with `d` the index of the first
/// dot (or the length, if there is none), the domain is well-formed exactly
/// when the part before `d` is a label and the part after is a well-formed
/// domain.
proof fn lemma_domain_split(s: Seq<char>, d: int)
    requires
        0 <= d <= s.len(),
        forall|j: int| 0 <= j < d ==> s[j] != '.',
        d < s.len() ==> s[d] == '.',
    ensures
        d == s.len() ==> (valid_domain(s) <==> valid_label(s)),
        d < s.len() ==> (valid_domain(s) <==> (0 < d && valid_label(s.subrange(0, d))
            && valid_domain(s.subrange(d + 1, s.len() as int)))),
{
    if d == s.len() {
        if valid_domain(s) && !valid_label(s) {
            let i = choose|i: int|
                0 < i < s.len() && s[i] == '.' && #[trigger] valid_label(s.subrange(0, i))
                    && valid_domain(s.subrange(i + 1, s.len() as int));
            assert(s[i] != '.');
        }
    } else {
        if 0 < d && valid_label(s.subrange(0, d))
            && valid_domain(s.subrange(d + 1, s.len() as int)) {
            assert(valid_domain(s));
        }
        if valid_domain(s) {
            if valid_label(s) {
                assert(is_label_char(s[d]));
                assert(false);
            }
            let i = choose|i: int|
                0 < i < s.len() && s[i] == '.' && #[trigger] valid_label(s.subrange(0, i))
                    && valid_domain(s.subrange(i + 1, s.len() as int));
            if i < d {
                assert(s[i] != '.');
            } else if i > d {
                assert(is_label_char(s.subrange(0, i)[d]));
                assert(false);
            }
            assert(i == d);
        }
    }
}

/// An address splits only at its first `@`: with `a` the index of the first
/// `@` (or the length, if there is none), the address is well-formed exactly
/// when the part before `a` is a valid local part and the part after is a
/// well-formed domain.
proof fn lemma_email_split(s: Seq<char>, a: int)
    requires
        0 <= a <= s.len(),
        forall|j: int| 0 <= j < a ==> s[j] != '@',
        a < s.len() ==> s[a] == '@',
    ensures
        a == s.len() ==> !valid_email(s),
        a < s.len() ==> (valid_email(s) <==> (0 < a && valid_local(s.subrange(0, a))
            && valid_domain(s.subrange(a + 1, s.len() as int)))),
{
    if a == s.len() {
        if valid_email(s) {
            let at = choose|at: int|
                0 < at < s.len() && s[at] == '@' && #[trigger] valid_local(s.subrange(0, at))
                    && valid_domain(s.subrange(at + 1, s.len() as int));
            assert(s[at] != '@');
        }
    } else {
        if 0 < a && valid_local(s.subrange(0, a))
            && valid_domain(s.subrange(a + 1, s.len() as int)) {
            assert(valid_email(s));
        }
        if valid_email(s) {
            let at = choose|at: int|
                0 < at < s.len() && s[at] == '@' && #[trigger] valid_local(s.subrange(0, at))
                    && valid_domain(s.subrange(at + 1, s.len() as int));
            if at < a {
                assert(s[at] != '@');
            } else if at > a {
                assert(is_local_char(s.subrange(0, at)[a]));
                assert(false);
            }
            assert(at == a);
        }
    }
}

/// No empty string, and no string without an `@` separator, is a valid
/// email address.
pub proof fn lemma_invalid_without_at(s: Seq<char>)
    ensures
        s.len() == 0 ==> !valid_email(s),
        !s.contains('@') ==> !valid_email(s),
{
    if valid_email(s) {
        let at = choose|at: int|
            0 < at < s.len() && s[at] == '@' && #[trigger] valid_local(s.subrange(0, at))
                && valid_domain(s.subrange(at + 1, s.len() as int));
        assert(s.len() > 0);
        assert(s.contains('@'));
    }
}

/// Decides `is_label_char`.
fn label_char(c: char) -> (b: bool)
    ensures
        b == is_label_char(c),
{
    let u = c as u32;
    (97 <= u && u <= 122) || (65 <= u && u <= 90) || (48 <= u && u <= 57) || c == '-'
}

/// Decides `is_local_char`.
fn local_char(c: char) -> (b: bool)
    ensures
        b == is_local_char(c),
{
    let u = c as u32;
    (97 <= u && u <= 122) || (65 <= u && u <= 90) || (48 <= u && u <= 57) || c == '.'
        || c == '!' || c == '#' || c == '$' || c == '%' || c == '&' || c == '\'' || c == '*'
        || c == '+' || c == '/' || c == '=' || c == '?' || c == '^' || c == '_' || c == '`'
        || c == '{' || c == '|' || c == '}' || c == '~' || c == '-'
}

/// Decides `valid_label` on the characters of `s` from `from` (inclusive)
/// to `to` (exclusive).
fn check_label(s: &str, from: usize, to: usize) -> (b: bool)
    requires
        from <= to <= s@.len(),
    ensures
        b == valid_label(s@.subrange(from as int, to as int)),
{
    let len = to - from;
    if len < 1 || len > 63 {
        return false;
    }
    if s.get_char(from) == '-' {
        return false;
    }
    if s.get_char(to - 1) == '-' {
        return false;
    }
    let mut i = from;
    while i < to
        invariant
            from <= i <= to <= s@.len(),
            forall|j: int| from <= j < i ==> is_label_char(s@[j]),
        decreases to - i,
    {
        if !label_char(s.get_char(i)) {
            assert(!is_label_char(s@.subrange(from as int, to as int)[i - from]));
            return false;
        }
        i += 1;
    }
    assert forall|k: int| 0 <= k < to - from implies
        is_label_char(s@.subrange(from as int, to as int)[k]) by {
        assert(s@.subrange(from as int, to as int)[k] == s@[from + k]);
    }
    true
}

/// Decides `valid_domain` on the characters of `s` from `from` to the end.
fn check_domain(s: &str, from: usize) -> (b: bool)
    requires
        from <= s@.len(),
    ensures
        b == valid_domain(s@.subrange(from as int, s@.len() as int)),
    decreases s@.len() - from,
{
    let n = s.unicode_len();
    let mut i = from;
    while i < n && s.get_char(i) != '.'
        invariant
            from <= i <= n,
            n == s@.len(),
            forall|j: int| from <= j < i ==> s@[j] != '.',
        decreases n - i,
    {
        i += 1;
    }
    let ghost sub = s@.subrange(from as int, n as int);
    let ghost d: int = i - from;
    proof {
        assert(forall|j: int| 0 <= j < d ==> sub[j] != '.');
        lemma_domain_split(sub, d);
    }
    if i == n {
        check_label(s, from, n)
    } else {
        let lab = check_label(s, from, i);
        proof {
            assert(sub.subrange(0, d) =~= s@.subrange(from as int, i as int));
        }
        if !lab {
            false
        } else {
            let rest = check_domain(s, i + 1);
            proof {
                assert(sub.subrange(d + 1, sub.len() as int)
                    =~= s@.subrange(i + 1, s@.len() as int));
            }
            rest
        }
    }
}

/// Decides `valid_email` on the whole of `s`.
#[verifier::loop_isolation(false)]
pub fn check_email(s: &str) -> (b: bool)
    ensures
        b == valid_email(s@),
{
    let n = s.unicode_len();
    let mut at: usize = 0;
    while at < n && s.get_char(at) != '@'
        invariant
            at <= n,
            n == s@.len(),
            forall|j: int| 0 <= j < at ==> s@[j] != '@',
        decreases n - at,
    {
        at += 1;
    }
    proof {
        lemma_email_split(s@, at as int);
    }
    if at == n {
        return false;
    }
    if at == 0 {
        return false;
    }
    let mut i: usize = 0;
    while i < at
        invariant
            i <= at < n,
            n == s@.len(),
            forall|j: int| 0 <= j < i ==> is_local_char(s@[j]),
        decreases at - i,
    {
        if !local_char(s.get_char(i)) {
            assert(!is_local_char(s@.subrange(0, at as int)[i as int]));
            return false;
        }
        i += 1;
    }
    assert forall|k: int| 0 <= k < at implies
        is_local_char(s@.subrange(0, at as int)[k]) by {
        assert(s@.subrange(0, at as int)[k] == s@[k]);
    }
    check_domain(s, at + 1)
}

/// The error `parse` returns when its input does not match the
/// email-format grammar. The offending input is kept for diagnostics.
#[derive(Debug)]
pub struct ValidationError {
    pub input: String,
}

impl ValidationError {
    /// A diagnostic line naming the error kind and the rejected input.
    pub fn message(&self) -> (r: String)
        ensures
            r@ == "invalid email format: "@ + self.input@,
    {
        let mut m = String::from_str("invalid email format: ");
        m.append(self.input.as_str());
        m
    }
}

/// An email address that is guaranteed syntactically valid: construction
/// through `parse` is the only way to obtain one, and the held string can
/// never change afterwards.
#[derive(Debug)]
pub struct SubscriberEmail {
    email: String,
}

impl View for SubscriberEmail {
    type V = Seq<char>;

    closed spec fn view(&self) -> Seq<char> {
        self.email@
    }
}

impl SubscriberEmail {
    #[verifier::type_invariant]
    spec fn inv(self) -> bool {
        valid_email(self.email@)
    }

    /// Validates `email` against the email-format grammar: on success the
    /// returned instance wraps exactly the input string, unchanged; on
    /// failure the error carries the input back. An empty string, or one
    /// without an `@` separator, always fails.
    pub fn parse(email: String) -> (r: Result<SubscriberEmail, ValidationError>)
        ensures
            match r {
                Ok(v) => valid_email(email@) && v@ == email@,
                Err(e) => !valid_email(email@) && e.input@ == email@,
            },
            (email@.len() == 0 || !email@.contains('@')) ==> r is Err,
    {
        proof {
            lemma_invalid_without_at(email@);
        }
        if check_email(email.as_str()) {
            Ok(SubscriberEmail { email })
        } else {
            Err(ValidationError { input: email })
        }
    }

    /// The underlying address, exposed without re-validation.
    pub fn as_ref(&self) -> (r: &str)
        ensures
            r@ == self@,
            valid_email(self@),
    {
        proof {
            use_type_invariant(self);
        }
        self.email.as_str()
    }
}

} // verus!
