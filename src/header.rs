//! Header names, header values and the ordered header multimap of a request.

use vstd::prelude::*;
use vstd::string::StringSliceAdditionalSpecFns;

verus! {

/// A byte that RFC 9110 allows in a token (`tchar`).
pub open spec fn is_token_char(c: char) -> bool {
    ||| ('0' <= c && c <= '9')
    ||| ('a' <= c && c <= 'z')
    ||| ('A' <= c && c <= 'Z')
    ||| c == '!' || c == '#' || c == '$' || c == '%' || c == '&' || c == '\''
    ||| c == '*' || c == '+' || c == '-' || c == '.' || c == '^' || c == '_'
    ||| c == '`' || c == '|' || c == '~'
}

/// Longest header name that the wire grammar of this library accepts.
pub const MAX_HEADER_NAME_LEN: usize = 65535;

/// Text that is a valid header name: a non-empty token of bounded length.
pub open spec fn is_header_name(s: Seq<char>) -> bool {
    &&& 0 < s.len() <= MAX_HEADER_NAME_LEN
    &&& forall|i: int| 0 <= i < s.len() ==> is_token_char(#[trigger] s[i])
}

pub open spec fn lower_char(c: char) -> char {
    if 'A' <= c && c <= 'Z' {
        ((c as u32 + 32) as u8) as char
    } else {
        c
    }
}

/// ASCII lowercase of a text; other characters are kept.
pub open spec fn ascii_lowercase(s: Seq<char>) -> Seq<char> {
    s.map_values(|c: char| lower_char(c))
}

/// A byte allowed in a header value: visible, space, tab or obs-text, but no control byte.
pub open spec fn is_value_byte(b: u8) -> bool {
    (b >= 32 && b != 127) || b == 9
}

pub open spec fn is_header_value(b: Seq<u8>) -> bool {
    forall|i: int| 0 <= i < b.len() ==> is_value_byte(#[trigger] b[i])
}

/// Relies on `http::HeaderName::from_bytes`: it accepts a non-empty token of at most
/// 65535 bytes and stores it in ASCII lowercase, which `as_str` hands back.
#[verifier::external_body]
fn http_header_name(s: &str) -> (r: Option<String>)
    ensures
        r is Some <==> is_header_name(s@),
        r is Some ==> r->0@ == ascii_lowercase(s@),
{
    match http::HeaderName::from_bytes(s.as_bytes()) {
        Ok(name) => Some(name.as_str().to_owned()),
        Err(_) => None,
    }
}

/// Relies on `http::HeaderValue::from_bytes`: it accepts exactly the byte strings
/// in which every byte is a tab or at least 32 and not 127.
#[verifier::external_body]
fn http_header_value_ok(b: &[u8]) -> (r: bool)
    ensures
        r == is_header_value(b@),
{
    http::HeaderValue::from_bytes(b).is_ok()
}

/// The error of a text that is no valid header value.
#[derive(Clone, Copy, Debug, PartialEq, Eq, Structural)]
pub struct InvalidHeaderValue;

/// Copies a byte slice into a vector of its own.
pub fn copy_bytes(b: &[u8]) -> (r: Vec<u8>)
    ensures
        r@ == b@,
{
    let mut r: Vec<u8> = Vec::with_capacity(b.len());
    let mut i: usize = 0;
    while i < b.len()
        invariant
            i <= b@.len(),
            r@ == b@.subrange(0, i as int),
        decreases b@.len() - i,
    {
        r.push(b[i]);
        i += 1;
    }
    assert(r@ =~= b@);
    r
}

/// The name of a header, held in ASCII lowercase as HTTP compares names without case.
#[derive(Debug)]
pub struct HeaderName {
    text: String,
}

impl View for HeaderName {
    type V = Seq<char>;

    closed spec fn view(&self) -> Seq<char> {
        self.text@
    }
}

impl HeaderName {
    #[verifier::type_invariant]
    spec fn inv(&self) -> bool {
        is_header_name(self.text@) && ascii_lowercase(self.text@) == self.text@
    }

    /// Parses a header name, lowercasing it; `None` when it is no valid token.
    pub fn from_text(s: &str) -> (r: Option<HeaderName>)
        ensures
            r is Some <==> is_header_name(s@),
            r is Some ==> r->0@ == ascii_lowercase(s@),
    {
        match http_header_name(s) {
            Some(text) => {
                proof {
                    lemma_lowercase_idempotent(s@);
                    lemma_lowercase_keeps_name(s@);
                }
                Some(HeaderName { text })
            },
            None => None,
        }
    }

    /// A name written in lowercase token characters is held as written.
    pub fn from_lowercase(s: &str) -> (r: HeaderName)
        requires
            is_header_name(s@),
            ascii_lowercase(s@) == s@,
        ensures
            r@ == s@,
    {
        HeaderName::from_text(s).unwrap()
    }

    pub fn as_str(&self) -> (r: &str)
        ensures
            r@ == self@,
    {
        self.text.as_str()
    }

    pub fn duplicate(&self) -> (r: HeaderName)
        ensures
            r@ == self@,
    {
        proof {
            use_type_invariant(self);
        }
        HeaderName { text: self.text.clone() }
    }

    pub fn equals(&self, other: &HeaderName) -> (r: bool)
        ensures
            r == (self@ == other@),
    {
        self.text == other.text
    }
}

pub proof fn lemma_lowercase_idempotent(s: Seq<char>)
    ensures
        ascii_lowercase(ascii_lowercase(s)) == ascii_lowercase(s),
{
    assert(ascii_lowercase(ascii_lowercase(s)) =~= ascii_lowercase(s));
}

pub proof fn lemma_lowercase_keeps_name(s: Seq<char>)
    requires
        is_header_name(s),
    ensures
        is_header_name(ascii_lowercase(s)),
{
    let l = ascii_lowercase(s);
    assert forall|i: int| 0 <= i < l.len() implies is_token_char(#[trigger] l[i]) by {
        assert(is_token_char(s[i]));
    }
}

/// Text in which every character is a visible ASCII character or a space.
pub open spec fn is_visible_ascii(s: Seq<char>) -> bool {
    forall|i: int| 0 <= i < s.len() ==> ' ' <= #[trigger] s[i] && s[i] <= '~'
}

/// The UTF-8 bytes of visible ASCII text form a valid header value.
pub proof fn lemma_visible_ascii_value(s: Seq<char>)
    requires
        is_visible_ascii(s),
    ensures
        is_header_value(vstd::utf8::encode_utf8(s)),
{
    assert(vstd::utf8::is_ascii_chars(s)) by {
        assert forall|i: int| 0 <= i < s.len() implies '\0' <= #[trigger] s[i] && s[i]
            <= '\u{7f}' by {
            assert(' ' <= s[i] && s[i] <= '~');
        }
    }
    vstd::utf8::is_ascii_chars_encode_utf8(s);
    let b = vstd::utf8::encode_utf8(s);
    assert forall|i: int| 0 <= i < b.len() implies is_value_byte(#[trigger] b[i]) by {
        assert(' ' <= s[i] && s[i] <= '~');
        assert(b[i] == s[i] as u8);
    }
}

/// A header value: its bytes, and whether it is to be kept out of logs.
#[derive(Debug)]
pub struct HeaderValue {
    bytes: Vec<u8>,
    sensitive: bool,
}

impl View for HeaderValue {
    type V = (Seq<u8>, bool);

    closed spec fn view(&self) -> (Seq<u8>, bool) {
        (self.bytes@, self.sensitive)
    }
}

impl HeaderValue {
    #[verifier::type_invariant]
    spec fn inv(&self) -> bool {
        is_header_value(self.bytes@)
    }

    /// Checks the bytes against the header value grammar; `None` when one is not allowed.
    pub fn from_bytes(b: &[u8]) -> (r: Option<HeaderValue>)
        ensures
            r is Some <==> is_header_value(b@),
            r is Some ==> r->0@ == (b@, false),
    {
        if http_header_value_ok(b) {
            let bytes = copy_bytes(b);
            Some(HeaderValue { bytes, sensitive: false })
        } else {
            None
        }
    }

    /// Checks the UTF-8 bytes of a text against the header value grammar.
    pub fn from_text(s: &str) -> (r: Option<HeaderValue>)
        ensures
            r is Some <==> is_header_value(s.spec_bytes()),
            r is Some ==> r->0@ == (s.spec_bytes(), false),
    {
        HeaderValue::from_bytes(s.as_bytes())
    }

    pub fn as_bytes(&self) -> (r: &[u8])
        ensures
            r@ == self@.0,
    {
        self.bytes.as_slice()
    }

    pub fn is_sensitive(&self) -> (r: bool)
        ensures
            r == self@.1,
    {
        self.sensitive
    }

    /// Marks the value as one that diagnostics must not show, or clears the mark.
    pub fn set_sensitive(&mut self, sensitive: bool)
        ensures
            final(self)@ == (old(self)@.0, sensitive),
    {
        proof {
            use_type_invariant(&*self);
        }
        self.sensitive = sensitive;
    }

    pub fn duplicate(&self) -> (r: HeaderValue)
        ensures
            r@ == self@,
    {
        proof {
            use_type_invariant(self);
        }
        HeaderValue { bytes: self.bytes.clone(), sensitive: self.sensitive }
    }
}

impl Clone for HeaderName {
    fn clone(&self) -> Self {
        self.duplicate()
    }
}

impl Clone for HeaderValue {
    fn clone(&self) -> Self {
        self.duplicate()
    }
}

/// One header line as the contracts see it: a name and a value with its sensitivity mark.
pub type EntryView = (Seq<char>, (Seq<u8>, bool));

/// The values stored under `name`, in the order they were added.
pub open spec fn values_in(entries: Seq<EntryView>, name: Seq<char>) -> Seq<(Seq<u8>, bool)>
    decreases entries.len(),
{
    if entries.len() == 0 {
        Seq::empty()
    } else {
        let rest = values_in(entries.drop_last(), name);
        if entries.last().0 == name {
            rest.push(entries.last().1)
        } else {
            rest
        }
    }
}

/// The entries whose name is not `name`, in their order.
pub open spec fn without(entries: Seq<EntryView>, name: Seq<char>) -> Seq<EntryView>
    decreases entries.len(),
{
    if entries.len() == 0 {
        Seq::empty()
    } else {
        let rest = without(entries.drop_last(), name);
        if entries.last().0 == name {
            rest
        } else {
            rest.push(entries.last())
        }
    }
}

pub proof fn lemma_values_in_push(entries: Seq<EntryView>, e: EntryView, name: Seq<char>)
    ensures
        values_in(entries.push(e), name) == if e.0 == name {
            values_in(entries, name).push(e.1)
        } else {
            values_in(entries, name)
        },
{
    assert(entries.push(e).drop_last() =~= entries);
}

pub proof fn lemma_without_push(entries: Seq<EntryView>, e: EntryView, name: Seq<char>)
    ensures
        without(entries.push(e), name) == if e.0 == name {
            without(entries, name)
        } else {
            without(entries, name).push(e)
        },
{
    assert(entries.push(e).drop_last() =~= entries);
}

/// Removing a name leaves no value under it and every other name as it was.
pub proof fn lemma_values_without(entries: Seq<EntryView>, name: Seq<char>, other: Seq<char>)
    ensures
        values_in(without(entries, name), other) == if other == name {
            Seq::<(Seq<u8>, bool)>::empty()
        } else {
            values_in(entries, other)
        },
    decreases entries.len(),
{
    if entries.len() > 0 {
        let init = entries.drop_last();
        let e = entries.last();
        lemma_values_without(init, name, other);
        assert(init.push(e) =~= entries);
        lemma_without_push(init, e, name);
        if e.0 != name {
            lemma_values_in_push(without(init, name), e, other);
        }
    }
}

/// The ordered multimap of the headers of a request. Names are compared in their
/// lowercase form; values under one name keep the order in which they were added.
#[derive(Debug)]
pub struct HeaderMap {
    entries: Vec<(HeaderName, HeaderValue)>,
}

pub open spec fn entry_views(entries: Seq<(HeaderName, HeaderValue)>) -> Seq<EntryView> {
    entries.map_values(|e: (HeaderName, HeaderValue)| (e.0@, e.1@))
}

impl View for HeaderMap {
    type V = Seq<EntryView>;

    closed spec fn view(&self) -> Seq<EntryView> {
        entry_views(self.entries@)
    }
}

impl HeaderMap {
    /// The values under `name`, oldest first.
    pub open spec fn values(&self, name: Seq<char>) -> Seq<(Seq<u8>, bool)> {
        values_in(self@, name)
    }

    pub fn new() -> (r: HeaderMap)
        ensures
            r@ == Seq::<EntryView>::empty(),
    {
        let r = HeaderMap { entries: Vec::new() };
        assert(r@ =~= Seq::<EntryView>::empty());
        r
    }

    /// Number of header lines, counting each value of a repeated name.
    pub fn len(&self) -> (r: usize)
        ensures
            r == self@.len(),
    {
        self.entries.len()
    }

    pub fn entries(&self) -> (r: &Vec<(HeaderName, HeaderValue)>)
        ensures
            entry_views(r@) == self@,
    {
        &self.entries
    }

    /// Whether at least one value is stored under `name`.
    pub fn contains_key(&self, name: &HeaderName) -> (r: bool)
        ensures
            r == (self.values(name@).len() > 0),
    {
        let ghost all = self@;
        let mut i: usize = 0;
        while i < self.entries.len()
            invariant
                i <= self.entries@.len(),
                all == self@,
                values_in(all.take(i as int), name@).len() == 0,
            decreases self.entries@.len() - i,
        {
            proof {
                assert(all.take(i + 1) =~= all.take(i as int).push(all[i as int]));
                lemma_values_in_push(all.take(i as int), all[i as int], name@);
            }
            if self.entries[i].0.equals(name) {
                proof {
                    lemma_values_in_grows(all, i as int + 1, name@);
                }
                return true;
            }
            i += 1;
        }
        assert(all.take(i as int) =~= all);
        false
    }

    /// Copies of the values under `name`, oldest first.
    pub fn get_all(&self, name: &HeaderName) -> (r: Vec<HeaderValue>)
        ensures
            r@.map_values(|v: HeaderValue| v@) == self.values(name@),
    {
        let ghost all = self@;
        let mut r: Vec<HeaderValue> = Vec::new();
        let mut i: usize = 0;
        while i < self.entries.len()
            invariant
                i <= self.entries@.len(),
                all == self@,
                r@.map_values(|v: HeaderValue| v@) == values_in(all.take(i as int), name@),
            decreases self.entries@.len() - i,
        {
            proof {
                assert(all.take(i + 1) =~= all.take(i as int).push(all[i as int]));
                lemma_values_in_push(all.take(i as int), all[i as int], name@);
            }
            if self.entries[i].0.equals(name) {
                let v = self.entries[i].1.duplicate();
                let ghost before = r@;
                r.push(v);
                assert(r@.map_values(|v: HeaderValue| v@) =~= before.map_values(
                    |v: HeaderValue| v@,
                ).push(v@));
            }
            i += 1;
        }
        assert(all.take(i as int) =~= all);
        r
    }

    /// Replaces every value under `name` with `value`.
    pub fn insert(&mut self, name: HeaderName, value: HeaderValue)
        ensures
            final(self)@ == without(old(self)@, name@).push((name@, value@)),
    {
        let ghost all = self@;
        let mut kept: Vec<(HeaderName, HeaderValue)> = Vec::new();
        let mut i: usize = 0;
        while i < self.entries.len()
            invariant
                i <= self.entries@.len(),
                all == self@,
                entry_views(kept@) == without(all.take(i as int), name@),
            decreases self.entries@.len() - i,
        {
            proof {
                assert(all.take(i + 1) =~= all.take(i as int).push(all[i as int]));
                lemma_without_push(all.take(i as int), all[i as int], name@);
            }
            if !self.entries[i].0.equals(&name) {
                let n = self.entries[i].0.duplicate();
                let v = self.entries[i].1.duplicate();
                let ghost before = kept@;
                kept.push((n, v));
                assert(entry_views(kept@) =~= entry_views(before).push((n@, v@)));
            }
            i += 1;
        }
        assert(all.take(i as int) =~= all);
        let ghost before = kept@;
        kept.push((name, value));
        assert(entry_views(kept@) =~= entry_views(before).push((name@, value@)));
        self.entries = kept;
    }

    /// Adds `value` under `name` after the values already there.
    pub fn append(&mut self, name: HeaderName, value: HeaderValue)
        ensures
            final(self)@ == old(self)@.push((name@, value@)),
    {
        let ghost before = self.entries@;
        self.entries.push((name, value));
        assert(entry_views(self.entries@) =~= entry_views(before).push((name@, value@)));
    }
}

/// Once a prefix holds a value under `name`, every longer prefix does too.
pub proof fn lemma_values_in_grows(entries: Seq<EntryView>, k: int, name: Seq<char>)
    requires
        0 <= k <= entries.len(),
        values_in(entries.take(k), name).len() > 0,
    ensures
        values_in(entries, name).len() > 0,
    decreases entries.len() - k,
{
    if k < entries.len() {
        assert(entries.take(k + 1) =~= entries.take(k).push(entries[k]));
        lemma_values_in_push(entries.take(k), entries[k], name);
        lemma_values_in_grows(entries, k + 1, name);
    } else {
        assert(entries.take(k) =~= entries);
    }
}

} // verus!
