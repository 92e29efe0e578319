//! What a visitor submits, once it has been checked: an email address and a
//! display name.

use vstd::prelude::*;
use vstd::slice::slice_subrange;
use vstd::string::*;

verus! {

/// Why a submission was turned away.
#[derive(Clone, Copy, Debug, PartialEq, Eq, Structural)]
pub enum InputError {
    /// The form had no `name` field.
    MissingName,
    /// The form had no `email` field.
    MissingEmail,
    /// The name is blank, too long, or holds a control character.
    InvalidName,
    /// The email is not a syntactically valid address.
    InvalidEmail,
}

/// The longest local part (before the `@`) of an address.
pub const MAX_LOCAL_LEN: usize = 64;

/// The longest domain (after the `@`) of an address.
pub const MAX_DOMAIN_LEN: usize = 255;

/// The longest label (between two dots) of a domain.
pub const MAX_LABEL_LEN: usize = 63;

/// The longest name, in characters.
pub const MAX_NAME_LEN: usize = 256;

/// An ASCII letter or digit.
pub open spec fn is_alphanumeric(c: char) -> bool {
    ||| 'a' <= c <= 'z'
    ||| 'A' <= c <= 'Z'
    ||| '0' <= c <= '9'
}

/// A character that may stand before the `@`: a letter, a digit, a dot, or one
/// of ``!#$%&'*+/=?^_`{|}~-``.
pub open spec fn is_local_char(c: char) -> bool {
    ||| is_alphanumeric(c)
    ||| c == '.'
    ||| c == '!'
    ||| c == '#'
    ||| c == '$'
    ||| c == '%'
    ||| c == '&'
    ||| c == '\''
    ||| c == '*'
    ||| c == '+'
    ||| c == '/'
    ||| c == '='
    ||| c == '?'
    ||| c == '^'
    ||| c == '_'
    ||| c == '`'
    ||| c == '{'
    ||| c == '|'
    ||| c == '}'
    ||| c == '~'
    ||| c == '-'
}

/// A character that may stand after the `@`: a letter, a digit, a hyphen or a
/// dot.
pub open spec fn is_domain_char(c: char) -> bool {
    is_alphanumeric(c) || c == '-' || c == '.'
}

/// The part before the `@`: one to `MAX_LOCAL_LEN` local characters.
pub open spec fn is_local_part(s: Seq<char>) -> bool {
    &&& 1 <= s.len() <= MAX_LOCAL_LEN
    &&& forall|i: int| 0 <= i < s.len() ==> is_local_char(#[trigger] s[i])
}

/// How many characters stand between position `i` and the nearest dot before
/// it (or the start of `s`): the length of the label that ends at `i`.
pub open spec fn label_len(s: Seq<char>, i: int) -> nat
    decreases i,
{
    if i <= 0 || i > s.len() || s[i - 1] == '.' {
        0
    } else {
        1 + label_len(s, i - 1)
    }
}

/// The part after the `@`: labels separated by single dots. Each label holds
/// one to `MAX_LABEL_LEN` letters, digits and hyphens, and neither starts nor
/// ends with a hyphen.
pub open spec fn is_domain(s: Seq<char>) -> bool {
    &&& 1 <= s.len() <= MAX_DOMAIN_LEN
    &&& forall|i: int| 0 <= i < s.len() ==> is_domain_char(#[trigger] s[i])
    &&& is_alphanumeric(s[0])
    &&& is_alphanumeric(s[s.len() - 1])
    &&& forall|i: int|
        0 <= i < s.len() && #[trigger] s[i] == '.' ==> 0 < i < s.len() - 1 && is_alphanumeric(
            s[i - 1],
        ) && is_alphanumeric(s[i + 1])
    &&& forall|i: int| 0 <= i <= s.len() ==> #[trigger] label_len(s, i) <= MAX_LABEL_LEN
}

/// `s` has an `@` at position `at`, a local part before it and a domain after
/// it.
pub open spec fn is_address_split_at(s: Seq<char>, at: int) -> bool {
    &&& 0 <= at < s.len()
    &&& s[at] == '@'
    &&& is_local_part(s.subrange(0, at))
    &&& is_domain(s.subrange(at + 1, s.len() as int))
}

/// A syntactically valid email address: `local@domain`.
pub open spec fn is_valid_email(s: Seq<char>) -> bool {
    exists|at: int| is_address_split_at(s, at)
}

/// Every character of a valid address is ASCII.
pub proof fn lemma_valid_email_is_ascii(s: Seq<char>)
    requires
        is_valid_email(s),
    ensures
        vstd::utf8::is_ascii_chars(s),
{
    let at = choose|at: int| is_address_split_at(s, at);
    let local = s.subrange(0, at);
    let domain = s.subrange(at + 1, s.len() as int);
    assert forall|i: int| 0 <= i < s.len() implies '\0' <= #[trigger] s[i] <= '\u{7f}' by {
        if i < at {
            assert(s[i] == local[i]);
            assert(is_local_char(local[i]));
        } else if i > at {
            assert(s[i] == domain[i - at - 1]);
            assert(is_domain_char(domain[i - at - 1]));
        }
    }
}

/// The `@` of a valid address is the first `@` in it, and the only one.
pub proof fn lemma_split_is_first_at(s: Seq<char>, at: int, first: int)
    requires
        is_address_split_at(s, at),
        0 <= first < s.len(),
        s[first] == '@',
    ensures
        first == at,
{
    let local = s.subrange(0, at);
    let domain = s.subrange(at + 1, s.len() as int);
    if first < at {
        assert(local[first] == s[first]);
        assert(is_local_char(local[first]));
    } else if first > at {
        assert(domain[first - at - 1] == s[first]);
        assert(is_domain_char(domain[first - at - 1]));
    }
}

/// An address has an `@`, with something before it and something after it:
/// the empty string and a string without `@` are no addresses.
pub proof fn lemma_email_needs_at_sign(s: Seq<char>)
    requires
        is_valid_email(s),
    ensures
        s.len() >= 3,
        exists|at: int| 0 < at < s.len() - 1 && s[at] == '@',
{
    let at = choose|at: int| is_address_split_at(s, at);
    assert(s.subrange(0, at).len() >= 1);
    assert(s.subrange(at + 1, s.len() as int).len() >= 1);
    assert(0 < at < s.len() - 1 && s[at] == '@');
}

/// Whether a byte is an ASCII letter or digit.
fn is_alphanumeric_byte(b: u8) -> (r: bool)
    ensures
        r == is_alphanumeric(b as char),
{
    (97 <= b && b <= 122) || (65 <= b && b <= 90) || (48 <= b && b <= 57)
}

/// Whether a byte may stand before the `@`.
fn is_local_byte(b: u8) -> (r: bool)
    ensures
        r == is_local_char(b as char),
{
    is_alphanumeric_byte(b) || b == 46 || b == 33 || b == 35 || b == 36 || b == 37 || b == 38
        || b == 39 || b == 42 || b == 43 || b == 47 || b == 61 || b == 63 || b == 94 || b == 95
        || b == 96 || b == 123 || b == 124 || b == 125 || b == 126 || b == 45
}

/// The characters that a sequence of ASCII bytes stands for.
spec fn ascii_chars(bytes: Seq<u8>) -> Seq<char> {
    Seq::new(bytes.len(), |i: int| bytes[i] as char)
}

/// The bytes of an ASCII string stand for its characters.
proof fn lemma_ascii_bytes_of(text: &str)
    requires
        is_ascii(text),
    ensures
        ascii_chars(text.spec_bytes()) == text@,
{
    vstd::utf8::is_ascii_chars_encode_utf8(text@);
    assert(ascii_chars(text.spec_bytes()) =~= text@);
}

/// The position of the first `@` among `bytes`, if there is one.
fn find_at_sign(bytes: &[u8]) -> (found: Option<usize>)
    ensures
        match found {
            Some(at) => at < bytes@.len() && ascii_chars(bytes@)[at as int] == '@' && forall|
                i: int,
            |
                0 <= i < at ==> ascii_chars(bytes@)[i] != '@',
            None => forall|i: int| 0 <= i < bytes@.len() ==> ascii_chars(bytes@)[i] != '@',
        },
{
    let n = bytes.len();
    let mut i: usize = 0;
    while i < n
        invariant
            n == bytes@.len(),
            i <= n,
            forall|j: int| 0 <= j < i ==> ascii_chars(bytes@)[j] != '@',
        decreases n - i,
    {
        if bytes[i] == 64 {
            return Some(i);
        }
        i += 1;
    }
    None
}

/// Whether `bytes` are the local part of an address.
fn check_local_part(bytes: &[u8]) -> (ok: bool)
    ensures
        ok == is_local_part(ascii_chars(bytes@)),
{
    let n = bytes.len();
    if n < 1 || n > MAX_LOCAL_LEN {
        return false;
    }
    let ghost chars = ascii_chars(bytes@);
    let mut i: usize = 0;
    while i < n
        invariant
            n == bytes@.len(),
            chars == ascii_chars(bytes@),
            i <= n,
            forall|j: int| 0 <= j < i ==> is_local_char(#[trigger] chars[j]),
        decreases n - i,
    {
        if !is_local_byte(bytes[i]) {
            assert(!is_local_char(chars[i as int]));
            return false;
        }
        i += 1;
    }
    true
}

/// Whether `bytes` are the domain of an address.
fn check_domain(bytes: &[u8]) -> (ok: bool)
    ensures
        ok == is_domain(ascii_chars(bytes@)),
{
    let n = bytes.len();
    if n < 1 || n > MAX_DOMAIN_LEN {
        return false;
    }
    let ghost chars = ascii_chars(bytes@);
    let mut i: usize = 0;
    let mut run: usize = 0;
    let mut after_dot: bool = true;
    while i < n
        invariant
            n == bytes@.len(),
            chars == ascii_chars(bytes@),
            1 <= n <= MAX_DOMAIN_LEN,
            i <= n,
            run == label_len(chars, i as int),
            run <= MAX_LABEL_LEN,
            after_dot == (i == 0 || chars[i - 1] == '.'),
            i > 0 ==> is_alphanumeric(chars[0]),
            forall|j: int| 0 <= j < i ==> is_domain_char(#[trigger] chars[j]),
            forall|j: int|
                0 <= j < i && #[trigger] chars[j] == '.' ==> 0 < j && is_alphanumeric(
                    chars[j - 1],
                ),
            forall|j: int|
                0 <= j < i - 1 && #[trigger] chars[j] == '.' ==> is_alphanumeric(chars[j + 1]),
            forall|j: int| 0 <= j <= i ==> #[trigger] label_len(chars, j) <= MAX_LABEL_LEN,
        decreases n - i,
    {
        let b = bytes[i];
        assert(chars[i as int] == b as char);
        let alnum = is_alphanumeric_byte(b);
        if !(alnum || b == 45 || b == 46) {
            assert(!is_domain_char(chars[i as int]));
            return false;
        }
        if after_dot && !alnum {
            // a label would start with a hyphen or a dot
            proof {
                if i > 0 {
                    assert(chars[i - 1] == '.');
                }
            }
            return false;
        }
        if b == 46 {
            // a label ends before this dot
            assert(chars[i as int] == '.');
            assert(chars[i - 1] == bytes@[i - 1] as char);
            if !is_alphanumeric_byte(bytes[i - 1]) {
                return false;
            }
            if i + 1 >= n {
                return false;
            }
            run = 0;
            after_dot = true;
        } else {
            run += 1;
            after_dot = false;
            if run > MAX_LABEL_LEN {
                assert(label_len(chars, i + 1) > MAX_LABEL_LEN);
                return false;
            }
        }
        i += 1;
    }
    assert(chars[n - 1] == bytes@[n - 1] as char);
    is_alphanumeric_byte(bytes[n - 1])
}

/// A syntactically valid email address.
#[derive(Debug)]
pub struct SubscriberEmail {
    value: String,
}

impl View for SubscriberEmail {
    type V = Seq<char>;

    closed spec fn view(&self) -> Seq<char> {
        self.value@
    }
}

impl PartialEq for SubscriberEmail {
    fn eq(&self, other: &Self) -> (equal: bool) {
        self.value == other.value
    }
}

impl vstd::std_specs::cmp::PartialEqSpecImpl for SubscriberEmail {
    open spec fn obeys_eq_spec() -> bool {
        true
    }

    open spec fn eq_spec(&self, other: &Self) -> bool {
        self@ == other@
    }
}

impl Clone for SubscriberEmail {
    fn clone(&self) -> (copy: Self)
        ensures
            copy@ == self@,
    {
        proof {
            use_type_invariant(self);
        }
        SubscriberEmail { value: self.value.clone() }
    }
}

impl SubscriberEmail {
    /// Every `SubscriberEmail` is a valid address.
    #[verifier::type_invariant]
    pub open spec fn wf(self) -> bool {
        is_valid_email(self@)
    }

    /// Accepts `s` if and only if it is a syntactically valid address, and
    /// keeps it as it was written.
    pub fn parse(s: String) -> (parsed: Result<SubscriberEmail, InputError>)
        ensures
            match parsed {
                Ok(email) => is_valid_email(s@) && email@ == s@ && email.wf(),
                Err(e) => !is_valid_email(s@) && e == InputError::InvalidEmail,
            },
    {
        let text = s.as_str();
        if !text.is_ascii() {
            proof {
                if is_valid_email(s@) {
                    lemma_valid_email_is_ascii(s@);
                }
            }
            return Err(InputError::InvalidEmail);
        }
        let bytes = text.as_bytes();
        proof {
            lemma_ascii_bytes_of(text);
        }
        let n = bytes.len();
        match find_at_sign(bytes) {
            None => Err(InputError::InvalidEmail),
            Some(at) => {
                let local = slice_subrange(bytes, 0, at);
                let domain = slice_subrange(bytes, at + 1, n);
                let ok = check_local_part(local) && check_domain(domain);
                proof {
                    assert(ascii_chars(local@) =~= s@.subrange(0, at as int));
                    assert(ascii_chars(domain@) =~= s@.subrange(at + 1, s@.len() as int));
                    if is_valid_email(s@) {
                        let split = choose|split: int| is_address_split_at(s@, split);
                        lemma_split_is_first_at(s@, split, at as int);
                    }
                    if ok {
                        assert(is_address_split_at(s@, at as int));
                    }
                }
                if ok {
                    Ok(SubscriberEmail { value: s })
                } else {
                    Err(InputError::InvalidEmail)
                }
            },
        }
    }

    /// The address, as it was submitted.
    pub fn as_ref(&self) -> (text: &str)
        ensures
            text@ == self@,
            is_valid_email(text@),
    {
        proof {
            use_type_invariant(self);
        }
        self.value.as_str()
    }
}

/// A white-space character of Unicode.
pub open spec fn is_whitespace(c: char) -> bool {
    ||| '\u{9}' <= c <= '\u{d}'
    ||| c == ' '
    ||| c == '\u{85}'
    ||| c == '\u{a0}'
    ||| c == '\u{1680}'
    ||| '\u{2000}' <= c <= '\u{200a}'
    ||| c == '\u{2028}'
    ||| c == '\u{2029}'
    ||| c == '\u{202f}'
    ||| c == '\u{205f}'
    ||| c == '\u{3000}'
}

/// A control character of Unicode.
pub open spec fn is_control(c: char) -> bool {
    c <= '\u{1f}' || '\u{7f}' <= c <= '\u{9f}'
}

/// A name that can be kept: at most `MAX_NAME_LEN` characters, not blank, and
/// free of control characters.
pub open spec fn is_valid_name(s: Seq<char>) -> bool {
    &&& s.len() <= MAX_NAME_LEN
    &&& exists|i: int| 0 <= i < s.len() && !is_whitespace(#[trigger] s[i])
    &&& forall|i: int| 0 <= i < s.len() ==> !is_control(#[trigger] s[i])
}

/// A name has a character that is no white space: the empty string and a
/// string of blanks are no names.
pub proof fn lemma_name_is_not_blank(s: Seq<char>)
    requires
        is_valid_name(s),
    ensures
        s.len() >= 1,
        exists|i: int| 0 <= i < s.len() && s[i] != ' ',
{
    let i = choose|i: int| 0 <= i < s.len() && !is_whitespace(#[trigger] s[i]);
    assert(0 <= i < s.len() && s[i] != ' ');
}

/// Whether a character is white space.
fn is_whitespace_char(c: char) -> (r: bool)
    ensures
        r == is_whitespace(c),
{
    let u: u32 = c as u32;
    (9 <= u && u <= 13) || u == 0x20 || u == 0x85 || u == 0xa0 || u == 0x1680 || (0x2000 <= u && u
        <= 0x200a) || u == 0x2028 || u == 0x2029 || u == 0x202f || u == 0x205f || u == 0x3000
}

/// Whether a character is a control character.
fn is_control_char(c: char) -> (r: bool)
    ensures
        r == is_control(c),
{
    let u: u32 = c as u32;
    u <= 0x1f || (0x7f <= u && u <= 0x9f)
}

/// The display name of a subscriber.
#[derive(Debug)]
pub struct SubscriberName {
    value: String,
}

impl View for SubscriberName {
    type V = Seq<char>;

    closed spec fn view(&self) -> Seq<char> {
        self.value@
    }
}

impl PartialEq for SubscriberName {
    fn eq(&self, other: &Self) -> (equal: bool) {
        self.value == other.value
    }
}

impl vstd::std_specs::cmp::PartialEqSpecImpl for SubscriberName {
    open spec fn obeys_eq_spec() -> bool {
        true
    }

    open spec fn eq_spec(&self, other: &Self) -> bool {
        self@ == other@
    }
}

impl Clone for SubscriberName {
    fn clone(&self) -> (copy: Self)
        ensures
            copy@ == self@,
    {
        proof {
            use_type_invariant(self);
        }
        SubscriberName { value: self.value.clone() }
    }
}

impl SubscriberName {
    /// Every `SubscriberName` is a valid name.
    #[verifier::type_invariant]
    pub open spec fn wf(self) -> bool {
        is_valid_name(self@)
    }

    /// Accepts `s` if and only if it is a valid name, and keeps it as it was
    /// written.
    pub fn parse(s: String) -> (parsed: Result<SubscriberName, InputError>)
        ensures
            match parsed {
                Ok(name) => is_valid_name(s@) && name@ == s@ && name.wf(),
                Err(e) => !is_valid_name(s@) && e == InputError::InvalidName,
            },
    {
        let text = s.as_str();
        let n = text.unicode_len();
        if n > MAX_NAME_LEN {
            return Err(InputError::InvalidName);
        }
        let mut blank = true;
        let mut i: usize = 0;
        while i < n
            invariant
                n == text@.len(),
                text@ == s@,
                i <= n,
                blank == forall|j: int| 0 <= j < i ==> is_whitespace(#[trigger] s@[j]),
                forall|j: int| 0 <= j < i ==> !is_control(#[trigger] s@[j]),
            decreases n - i,
        {
            let c = text.get_char(i);
            if is_control_char(c) {
                return Err(InputError::InvalidName);
            }
            if !is_whitespace_char(c) {
                blank = false;
            }
            i += 1;
        }
        if blank {
            Err(InputError::InvalidName)
        } else {
            Ok(SubscriberName { value: s })
        }
    }

    /// The name, as it was submitted.
    pub fn as_ref(&self) -> (text: &str)
        ensures
            text@ == self@,
            is_valid_name(text@),
    {
        proof {
            use_type_invariant(self);
        }
        self.value.as_str()
    }
}

/// A token that can stand in a link as it is: one or more ASCII letters and
/// digits.
pub open spec fn is_valid_token(s: Seq<char>) -> bool {
    &&& s.len() >= 1
    &&& forall|i: int| 0 <= i < s.len() ==> is_alphanumeric(#[trigger] s[i])
}

/// The token that a subscriber hands back to confirm a subscription. It comes
/// from a source of randomness outside the library; here it is only checked
/// and carried.
#[derive(Debug)]
pub struct ConfirmationToken {
    value: String,
}

impl View for ConfirmationToken {
    type V = Seq<char>;

    closed spec fn view(&self) -> Seq<char> {
        self.value@
    }
}

impl PartialEq for ConfirmationToken {
    fn eq(&self, other: &Self) -> (equal: bool) {
        self.value == other.value
    }
}

impl vstd::std_specs::cmp::PartialEqSpecImpl for ConfirmationToken {
    open spec fn obeys_eq_spec() -> bool {
        true
    }

    open spec fn eq_spec(&self, other: &Self) -> bool {
        self@ == other@
    }
}

impl Clone for ConfirmationToken {
    fn clone(&self) -> (copy: Self)
        ensures
            copy@ == self@,
    {
        proof {
            use_type_invariant(self);
        }
        ConfirmationToken { value: self.value.clone() }
    }
}

impl ConfirmationToken {
    /// Every `ConfirmationToken` is a valid token.
    #[verifier::type_invariant]
    pub open spec fn wf(self) -> bool {
        is_valid_token(self@)
    }

    /// Accepts `s` if and only if it is a valid token.
    pub fn parse(s: String) -> (parsed: Option<ConfirmationToken>)
        ensures
            match parsed {
                Some(token) => is_valid_token(s@) && token@ == s@ && token.wf(),
                None => !is_valid_token(s@),
            },
    {
        let text = s.as_str();
        if !text.is_ascii() {
            proof {
                if is_valid_token(s@) {
                    assert forall|i: int| 0 <= i < s@.len() implies '\0' <= #[trigger] s@[i]
                        <= '\u{7f}' by {
                        assert(is_alphanumeric(s@[i]));
                    }
                }
            }
            return None;
        }
        let bytes = text.as_bytes();
        proof {
            lemma_ascii_bytes_of(text);
        }
        let n = bytes.len();
        if n == 0 {
            return None;
        }
        let mut i: usize = 0;
        while i < n
            invariant
                n == bytes@.len(),
                ascii_chars(bytes@) == s@,
                i <= n,
                forall|j: int| 0 <= j < i ==> is_alphanumeric(#[trigger] s@[j]),
            decreases n - i,
        {
            assert(s@[i as int] == bytes@[i as int] as char);
            if !is_alphanumeric_byte(bytes[i]) {
                return None;
            }
            i += 1;
        }
        Some(ConfirmationToken { value: s })
    }

    /// The token's text.
    pub fn as_ref(&self) -> (text: &str)
        ensures
            text@ == self@,
            is_valid_token(text@),
    {
        proof {
            use_type_invariant(self);
        }
        self.value.as_str()
    }
}

} // verus!
