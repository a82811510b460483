//! Hardware addresses: the strict textual form that configuration must have,
//! and the filter applied before an address is placed in a remote command.

use vstd::prelude::*;
use vstd::string::StringExecFns;
use crate::text::push_char;

verus! {

/// An ASCII hexadecimal digit, in either case.
pub open spec fn is_hex_digit(c: char) -> bool {
    ('0' <= c && c <= '9') || ('a' <= c && c <= 'f') || ('A' <= c && c <= 'F')
}

/// A character that may stand in an address handed to a remote command.
pub open spec fn is_mac_char(c: char) -> bool {
    is_hex_digit(c) || c == ':' || c == '-'
}

/// Six two-digit hexadecimal octets, separated throughout by `sep`.
pub open spec fn is_mac_with(s: Seq<char>, sep: char) -> bool {
    &&& s.len() == 17
    &&& forall|i: int| 0 <= i < 17 ==> if i % 3 == 2 {
        (#[trigger] s[i]) == sep
    } else {
        is_hex_digit(s[i])
    }
}

/// The strict form: all separators are colons, or all are hyphens.
pub open spec fn is_mac_form(s: Seq<char>) -> bool {
    is_mac_with(s, ':') || is_mac_with(s, '-')
}

/// What is left of `s` when every character outside the address alphabet is
/// dropped, the rest keeping their order.
pub open spec fn sanitized(s: Seq<char>) -> Seq<char> {
    s.filter(|c: char| is_mac_char(c))
}

/// Whether `c` is an ASCII hexadecimal digit.
pub fn hex_digit(c: char) -> (r: bool)
    ensures
        r == is_hex_digit(c),
{
    ('0' <= c && c <= '9') || ('a' <= c && c <= 'f') || ('A' <= c && c <= 'F')
}

/// Whether `c` may stand in an address handed to a remote command.
pub fn mac_char(c: char) -> (r: bool)
    ensures
        r == is_mac_char(c),
{
    hex_digit(c) || c == ':' || c == '-'
}

/// Decides whether `mac` is written in the strict form.
pub fn is_valid_mac(mac: &str) -> (r: bool)
    ensures
        r == is_mac_form(mac@),
{
    if mac.unicode_len() != 17 {
        return false;
    }
    let sep: char = mac.get_char(2);
    if sep != ':' && sep != '-' {
        return false;
    }
    let mut i: usize = 0;
    while i < 17
        invariant
            mac@.len() == 17,
            i <= 17,
            sep == mac@[2],
            sep == ':' || sep == '-',
            forall|k: int| 0 <= k < i ==> if k % 3 == 2 {
                (#[trigger] mac@[k]) == sep
            } else {
                is_hex_digit(mac@[k])
            },
        decreases 17 - i,
    {
        let c: char = mac.get_char(i);
        if i % 3 == 2 {
            if c != sep {
                return false;
            }
        } else if !hex_digit(c) {
            return false;
        }
        i += 1;
    }
    true
}

/// A hardware address that has passed the validator. There is no other way
/// to make one, so whoever holds one holds an address in the strict form.
#[derive(Debug)]
pub struct MacAddress {
    text: String,
}

impl Clone for MacAddress {
    fn clone(&self) -> (r: Self)
        ensures
            r@ == self@,
    {
        proof {
            use_type_invariant(self);
        }
        MacAddress { text: self.text.clone() }
    }
}

impl View for MacAddress {
    type V = Seq<char>;

    closed spec fn view(&self) -> Seq<char> {
        self.text@
    }
}

impl MacAddress {
    #[verifier::type_invariant]
    spec fn strict(&self) -> bool {
        is_mac_form(self.text@)
    }

    /// Takes `s` as an address if it is written in the strict form, and
    /// refuses it otherwise.
    pub fn parse(s: &str) -> (r: Option<MacAddress>)
        ensures
            r is Some == is_mac_form(s@),
            r is Some ==> r->0@ == s@,
    {
        if is_valid_mac(s) {
            Some(MacAddress { text: String::from_str(s) })
        } else {
            None
        }
    }

    /// The address as text; it is in the strict form.
    pub fn as_str(&self) -> (r: &str)
        ensures
            r@ == self@,
            is_mac_form(r@),
    {
        proof {
            use_type_invariant(self);
        }
        self.text.as_str()
    }
}

/// Drops from `mac` every character that is not a hexadecimal digit, a colon
/// or a hyphen.
pub fn sanitize_mac(mac: &str) -> (r: String)
    ensures
        r@ == sanitized(mac@),
{
    let n: usize = mac.unicode_len();
    let mut out: String = String::new();
    let mut i: usize = 0;
    while i < n
        invariant
            n == mac@.len(),
            i <= n,
            out@ == sanitized(mac@.subrange(0, i as int)),
        decreases n - i,
    {
        let c: char = mac.get_char(i);
        proof {
            lemma_sanitized_push(mac@.subrange(0, i as int), c);
            assert(mac@.subrange(0, i as int).push(c) =~= mac@.subrange(0, i + 1));
        }
        if mac_char(c) {
            push_char(&mut out, c);
        }
        i += 1;
    }
    assert(mac@.subrange(0, n as int) =~= mac@);
    out
}

/// Filtering a sequence extended by one character.
proof fn lemma_sanitized_push(s: Seq<char>, c: char)
    ensures
        sanitized(s.push(c)) == if is_mac_char(c) {
            sanitized(s).push(c)
        } else {
            sanitized(s)
        },
{
    assert(s.push(c).drop_last() =~= s);
    reveal_with_fuel(Seq::filter, 2);
}

/// What the filter leaves holds nothing but hexadecimal digits, colons and
/// hyphens.
pub proof fn lemma_sanitized_is_clean(s: Seq<char>)
    ensures
        forall|i: int| 0 <= i < sanitized(s).len() ==> is_mac_char(#[trigger] sanitized(s)[i]),
        sanitized(s).len() <= s.len(),
    decreases s.len(),
{
    if s.len() == 0 {
        assert(sanitized(s) =~= Seq::<char>::empty());
    } else {
        lemma_sanitized_is_clean(s.drop_last());
        lemma_sanitized_push(s.drop_last(), s.last());
        assert(s.drop_last().push(s.last()) =~= s);
    }
}

/// A text made of those characters alone passes the filter unchanged.
pub proof fn lemma_clean_is_kept(s: Seq<char>)
    requires
        forall|i: int| 0 <= i < s.len() ==> is_mac_char(#[trigger] s[i]),
    ensures
        sanitized(s) == s,
    decreases s.len(),
{
    if s.len() == 0 {
        assert(sanitized(s) =~= s);
    } else {
        lemma_clean_is_kept(s.drop_last());
        lemma_sanitized_push(s.drop_last(), s.last());
        assert(s.drop_last().push(s.last()) =~= s);
    }
}

/// An address in the strict form passes the filter unchanged: the command
/// carries exactly the address that was configured.
pub proof fn lemma_valid_mac_is_kept(s: Seq<char>)
    requires
        is_mac_form(s),
    ensures
        sanitized(s) == s,
{
    assert forall|i: int| 0 <= i < s.len() implies is_mac_char(#[trigger] s[i]) by {
        if i % 3 == 2 {
            assert(s[i] == ':' || s[i] == '-');
        } else {
            assert(is_hex_digit(s[i]));
        }
    }
    lemma_clean_is_kept(s);
}

/// Filtering twice is filtering once.
pub proof fn lemma_sanitized_twice(s: Seq<char>)
    ensures
        sanitized(sanitized(s)) == sanitized(s),
{
    lemma_sanitized_is_clean(s);
    lemma_clean_is_kept(sanitized(s));
}

} // verus!
