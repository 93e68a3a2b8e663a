use vstd::prelude::*;

use crate::error::{opt_text, ErrorKind, HttpError};

verus! {

/// One header field: lower-case name, value, and whether the value is sensitive.
pub type FieldView = (Seq<char>, Seq<char>, bool);

/// A character that may stand in a header name, as http's name table admits it.
pub open spec fn is_header_name_char(c: char) -> bool {
    let u = c as u32;
    u == 33 || u == 34 || (35 <= u && u <= 39) || u == 42 || u == 43 || u == 45 || u == 46
        || (48 <= u && u <= 57) || (65 <= u && u <= 90) || (94 <= u && u <= 122) || u == 124
        || u == 126
}

/// A header name that http accepts: one to 65535 name characters.
pub open spec fn valid_header_name(s: Seq<char>) -> bool {
    &&& 1 <= s.len() <= 65535
    &&& forall|i: int| 0 <= i < s.len() ==> is_header_name_char(#[trigger] s[i])
}

/// `d` is `c` with an ASCII upper-case letter turned to lower case.
pub open spec fn lowered_char(c: char, d: char) -> bool {
    if 65 <= (c as u32) && (c as u32) <= 90 {
        d as u32 == (c as u32) + 32
    } else {
        d == c
    }
}

/// `t` is `s` with its ASCII upper-case letters turned to lower case.
pub open spec fn lowered(s: Seq<char>, t: Seq<char>) -> bool {
    &&& t.len() == s.len()
    &&& forall|i: int| 0 <= i < s.len() ==> lowered_char(#[trigger] s[i], t[i])
}

/// A header value that http accepts: no control character but horizontal tab.
pub open spec fn valid_header_value(s: Seq<char>) -> bool {
    forall|i: int|
        0 <= i < s.len() ==> {
            let u = (#[trigger] s[i]) as u32;
            (u >= 32 && u != 127) || u == 9
        }
}

/// Relies on http::header::HeaderName::from_bytes: it accepts exactly the valid
/// names and yields them in lower case.
#[verifier::external_body]
pub(crate) fn parse_header_name(s: &str) -> (r: Result<String, String>)
    ensures
        r is Ok <==> valid_header_name(s@),
        r matches Ok(n) ==> lowered(s@, n@),
{
    match http::header::HeaderName::from_bytes(s.as_bytes()) {
        Ok(n) => Ok(n.as_str().to_string()),
        Err(e) => Err(e.to_string()),
    }
}

/// Relies on http::HeaderValue::from_str: it accepts exactly the valid values and
/// keeps their bytes.
#[verifier::external_body]
pub(crate) fn parse_header_value(s: &str) -> (r: Result<String, String>)
    ensures
        r is Ok <==> valid_header_value(s@),
        r matches Ok(v) ==> v@ == s@,
{
    match http::HeaderValue::from_str(s) {
        Ok(_) => Ok(s.to_string()),
        Err(e) => Err(e.to_string()),
    }
}

/// The values stored under `name`, in insertion order.
pub open spec fn values_of(h: Seq<FieldView>, name: Seq<char>) -> Seq<Seq<char>>
    decreases h.len(),
{
    if h.len() == 0 {
        Seq::empty()
    } else {
        let rest = values_of(h.drop_last(), name);
        if h.last().0 == name {
            rest.push(h.last().1)
        } else {
            rest
        }
    }
}

/// The fields whose name is not `name`, in order.
pub open spec fn without_name(h: Seq<FieldView>, name: Seq<char>) -> Seq<FieldView>
    decreases h.len(),
{
    if h.len() == 0 {
        Seq::empty()
    } else {
        let rest = without_name(h.drop_last(), name);
        if h.last().0 == name {
            rest
        } else {
            rest.push(h.last())
        }
    }
}

/// Whether some field is named `name`.
pub open spec fn has_name(h: Seq<FieldView>, name: Seq<char>) -> bool {
    exists|i: int| 0 <= i < h.len() && (#[trigger] h[i]).0 == name
}

/// The fields after appending one: earlier values of the same name stay.
pub open spec fn appended(h: Seq<FieldView>, name: Seq<char>, value: Seq<char>, sensitive: bool) -> Seq<FieldView> {
    h.push((name, value, sensitive))
}

/// The fields after setting one: every earlier value of the same name goes.
pub open spec fn set_field(h: Seq<FieldView>, name: Seq<char>, value: Seq<char>, sensitive: bool) -> Seq<FieldView> {
    without_name(h, name).push((name, value, sensitive))
}

/// Header values accumulated in order: `extended(h, other)` is `h` after
/// extending it with `other`, where the first value of each name in `other`
/// replaces what `h` held under that name and later ones are appended.
pub open spec fn extended(h: Seq<FieldView>, other: Seq<FieldView>) -> Seq<FieldView>
    decreases other.len(),
{
    if other.len() == 0 {
        h
    } else {
        let prev = extended(h, other.drop_last());
        let f = other.last();
        if has_name(other.drop_last(), f.0) {
            appended(prev, f.0, f.1, f.2)
        } else {
            set_field(prev, f.0, f.1, f.2)
        }
    }
}

/// One stored header field.
pub struct HeaderEntry {
    pub name: String,
    pub value: String,
    pub sensitive: bool,
}

/// A name as the map stores it: a valid header name already in lower case.
pub open spec fn stored_name(s: Seq<char>) -> bool {
    valid_header_name(s) && lowered(s, s)
}

/// What http's parser makes of a valid name is a stored name.
pub proof fn lemma_lowered_is_stored(s: Seq<char>, t: Seq<char>)
    requires
        valid_header_name(s),
        lowered(s, t),
    ensures
        stored_name(t),
{
    assert forall|i: int| 0 <= i < t.len() implies is_header_name_char(#[trigger] t[i]) && lowered_char(
        t[i],
        t[i],
    ) by {
        assert(is_header_name_char(s[i]));
        assert(lowered_char(s[i], t[i]));
    }
}

/// The fixed names the client sets are stored names.
pub proof fn lemma_fixed_names()
    ensures
        stored_name("cookie"@),
        stored_name("authorization"@),
        stored_name("content-type"@),
{
    reveal_strlit("cookie");
    reveal_strlit("authorization");
    reveal_strlit("content-type");
    assert(stored_name("cookie"@));
    assert(stored_name("authorization"@));
    assert(stored_name("content-type"@));
}

/// An ordered header multimap; names are kept in lower case and repeated
/// names keep every value in insertion order.
pub struct HeaderMap {
    entries: Vec<HeaderEntry>,
}

impl View for HeaderMap {
    type V = Seq<FieldView>;

    closed spec fn view(&self) -> Seq<FieldView> {
        self.entries@.map_values(|e: HeaderEntry| (e.name@, e.value@, e.sensitive))
    }
}

impl Clone for HeaderMap {
    fn clone(&self) -> (r: Self)
        ensures
            r@ == self@,
    {
        proof {
            use_type_invariant(&*self);
            self.lemma_names_stored();
        }
        let mut out = HeaderMap::new();
        let n = self.entries.len();
        let mut i: usize = 0;
        while i < n
            invariant
                n == self@.len(),
                forall|j: int| 0 <= j < self@.len() ==> stored_name(#[trigger] self@[j].0),
                0 <= i <= n,
                out@ == self@.take(i as int),
            decreases n - i,
        {
            let e = &self.entries[i];
            assert(self@[i as int] == (e.name@, e.value@, e.sensitive));
            assert(stored_name(self@[i as int].0));
            out.append_field(e.name.clone(), e.value.clone(), e.sensitive);
            assert(out@ =~= self@.take(i as int + 1));
            i = i + 1;
        }
        assert(self@.take(n as int) =~= self@);
        out
    }
}

impl HeaderMap {
    /// Every stored name is a valid lower-case header name.
    #[verifier::type_invariant]
    spec fn names_stored(&self) -> bool {
        forall|i: int| 0 <= i < self.entries@.len() ==> stored_name(#[trigger] self.entries@[i].name@)
    }

    /// The invariant, read through the view.
    proof fn lemma_names_stored(&self)
        requires
            self.names_stored(),
        ensures
            forall|i: int| 0 <= i < self@.len() ==> stored_name(#[trigger] self@[i].0),
    {
        assert forall|i: int| 0 <= i < self@.len() implies stored_name(#[trigger] self@[i].0) by {
            assert(self@[i].0 == self.entries@[i].name@);
        }
    }

    /// The stored fields, in order.
    pub fn entries(&self) -> (r: &Vec<HeaderEntry>)
        ensures
            r@.map_values(|e: HeaderEntry| (e.name@, e.value@, e.sensitive)) == self@,
    {
        &self.entries
    }

    pub fn new() -> (r: HeaderMap)
        ensures
            r@ == Seq::<FieldView>::empty(),
    {
        let r = HeaderMap { entries: Vec::new() };
        assert(r@ =~= Seq::<FieldView>::empty());
        r
    }

    pub fn len(&self) -> (r: usize)
        ensures
            r == self@.len(),
    {
        self.entries.len()
    }

    pub fn is_empty(&self) -> (r: bool)
        ensures
            r == (self@.len() == 0),
    {
        self.entries.len() == 0
    }

    /// Adds a field after the others, keeping earlier values of its name.
    pub fn append_field(&mut self, name: String, value: String, sensitive: bool)
        requires
            stored_name(name@),
        ensures
            final(self)@ == appended(old(self)@, name@, value@, sensitive),
    {
        proof {
            use_type_invariant(&*self);
        }
        let ghost start = self@;
        let mut entries: Vec<HeaderEntry> = Vec::new();
        std::mem::swap(&mut entries, &mut self.entries);
        assert(entries@.map_values(|e: HeaderEntry| (e.name@, e.value@, e.sensitive)) == start);
        entries.push(HeaderEntry { name, value, sensitive });
        assert(forall|i: int| 0 <= i < entries@.len() - 1 ==> entries@[i] == old(self).entries@[i]);
        self.entries = entries;
        assert(self@ =~= appended(start, name@, value@, sensitive));
    }

    /// Removes every field named `name`.
    pub fn remove_all(&mut self, name: &String)
        ensures
            final(self)@ == without_name(old(self)@, name@),
    {
        proof {
            use_type_invariant(&*self);
            self.lemma_names_stored();
        }
        let ghost start = self@;
        let mut kept = HeaderMap::new();
        let n = self.entries.len();
        let mut i: usize = 0;
        while i < n
            invariant
                n == start.len(),
                start == self@,
                forall|j: int| 0 <= j < start.len() ==> stored_name(#[trigger] start[j].0),
                0 <= i <= n,
                kept@ == without_name(start.take(i as int), name@),
            decreases n - i,
        {
            let e = &self.entries[i];
            proof {
                assert(start.take(i as int + 1).drop_last() =~= start.take(i as int));
                assert(start[i as int] == (e.name@, e.value@, e.sensitive));
                assert(stored_name(start[i as int].0));
            }
            if e.name != *name {
                kept.append_field(e.name.clone(), e.value.clone(), e.sensitive);
            }
            i = i + 1;
        }
        assert(start.take(n as int) =~= start);
        *self = kept;
    }

    /// Sets a field: every earlier value of its name goes, the new one comes last.
    pub fn set_field(&mut self, name: String, value: String, sensitive: bool)
        requires
            stored_name(name@),
        ensures
            final(self)@ == set_field(old(self)@, name@, value@, sensitive),
    {
        self.remove_all(&name);
        self.append_field(name, value, sensitive);
    }

    /// Extends the map with `other`, as `extended` says.
    pub fn extend(&mut self, other: HeaderMap)
        ensures
            final(self)@ == extended(old(self)@, other@),
    {
        proof {
            use_type_invariant(&other);
            other.lemma_names_stored();
        }
        let ghost start = self@;
        let ghost ov = other@;
        let mut seen = HeaderMap::new();
        let n = other.entries.len();
        let mut i: usize = 0;
        while i < n
            invariant
                n == ov.len(),
                ov == other@,
                forall|j: int| 0 <= j < ov.len() ==> stored_name(#[trigger] ov[j].0),
                0 <= i <= n,
                self@ == extended(start, ov.take(i as int)),
                seen@ == ov.take(i as int),
            decreases n - i,
        {
            let e = &other.entries[i];
            proof {
                assert(ov.take(i as int + 1).drop_last() =~= ov.take(i as int));
                assert(ov.take(i as int + 1).last() == ov[i as int]);
                assert(ov[i as int] == (e.name@, e.value@, e.sensitive));
                assert(stored_name(ov[i as int].0));
            }
            if seen.has_field(&e.name) {
                self.append_field(e.name.clone(), e.value.clone(), e.sensitive);
            } else {
                self.set_field(e.name.clone(), e.value.clone(), e.sensitive);
            }
            seen.append_field(e.name.clone(), e.value.clone(), e.sensitive);
            assert(seen@ =~= ov.take(i as int + 1));
            i = i + 1;
        }
        assert(ov.take(n as int) =~= ov);
    }

    /// The values stored under `name` (already in lower case), in insertion order.
    pub fn values_for(&self, name: &String) -> (r: Vec<String>)
        ensures
            r@.map_values(|v: String| v@) == values_of(self@, name@),
    {
        let mut out: Vec<String> = Vec::new();
        let n = self.entries.len();
        let mut i: usize = 0;
        while i < n
            invariant
                n == self@.len(),
                0 <= i <= n,
                out@.map_values(|v: String| v@) == values_of(self@.take(i as int), name@),
            decreases n - i,
        {
            proof {
                assert(self@.take(i as int + 1).drop_last() =~= self@.take(i as int));
            }
            if self.entries[i].name == *name {
                out.push(self.entries[i].value.clone());
                assert(out@.map_values(|v: String| v@)
                    =~= values_of(self@.take(i as int), name@).push(self@[i as int].1));
            }
            i = i + 1;
        }
        assert(self@.take(n as int) =~= self@);
        out
    }

    /// Whether some field is named `name` (already in lower case).
    pub fn has_field(&self, name: &String) -> (r: bool)
        ensures
            r == has_name(self@, name@),
    {
        let n = self.entries.len();
        let mut i: usize = 0;
        while i < n
            invariant
                n == self@.len(),
                0 <= i <= n,
                forall|j: int| 0 <= j < i ==> (#[trigger] self@[j]).0 != name@,
            decreases n - i,
        {
            if self.entries[i].name == *name {
                assert(self@[i as int].0 == name@);
                return true;
            }
            i = i + 1;
        }
        false
    }

    /// Checks a name and a value, then adds the field after the others.
    pub fn append(&mut self, name: &str, value: &str) -> (r: Result<(), HttpError>)
        ensures
            r is Ok <==> valid_header_name(name@) && valid_header_value(value@),
            r is Ok ==> exists|n: Seq<char>|
                lowered(name@, n) && final(self)@ == appended(old(self)@, n, value@, false),
            r is Err ==> final(self)@ == old(self)@ && r->Err_0.kind() == ErrorKind::InvalidRequest,
    {
        match checked_field(name, value) {
            Ok((n, v)) => {
                proof {
                    lemma_lowered_is_stored(name@, n@);
                }
                self.append_field(n, v, false);
                Ok(())
            },
            Err(e) => Err(e),
        }
    }

    /// Checks a name and a value, then sets the field, replacing earlier values.
    pub fn insert(&mut self, name: &str, value: &str) -> (r: Result<(), HttpError>)
        ensures
            r is Ok <==> valid_header_name(name@) && valid_header_value(value@),
            r is Ok ==> exists|n: Seq<char>|
                lowered(name@, n) && final(self)@ == set_field(old(self)@, n, value@, false),
            r is Err ==> final(self)@ == old(self)@ && r->Err_0.kind() == ErrorKind::InvalidRequest,
    {
        match checked_field(name, value) {
            Ok((n, v)) => {
                proof {
                    lemma_lowered_is_stored(name@, n@);
                }
                self.set_field(n, v, false);
                Ok(())
            },
            Err(e) => Err(e),
        }
    }

    /// The values under a name, matched without regard to case; none for a name
    /// that is not valid.
    pub fn get_all(&self, name: &str) -> (r: Vec<String>)
        ensures
            !valid_header_name(name@) ==> r@.len() == 0,
            valid_header_name(name@) ==> exists|n: Seq<char>|
                lowered(name@, n) && r@.map_values(|v: String| v@) == values_of(self@, n),
    {
        match parse_header_name(name) {
            Ok(n) => self.values_for(&n),
            Err(_) => Vec::new(),
        }
    }

    /// Whether a field of that name, matched without regard to case, is present.
    pub fn contains_key(&self, name: &str) -> (r: bool)
        ensures
            !valid_header_name(name@) ==> !r,
            valid_header_name(name@) ==> exists|n: Seq<char>| lowered(name@, n) && r == has_name(self@, n),
    {
        match parse_header_name(name) {
            Ok(n) => self.has_field(&n),
            Err(_) => false,
        }
    }
}

/// Validates a header name and value; the name comes back in lower case.
pub(crate) fn checked_field(name: &str, value: &str) -> (r: Result<(String, String), HttpError>)
    ensures
        r is Ok <==> valid_header_name(name@) && valid_header_value(value@),
        r matches Ok((n, v)) ==> lowered(name@, n@) && v@ == value@,
        r matches Err(e) ==> e.kind() == ErrorKind::InvalidRequest && e.message() == None::<Seq<char>>,
{
    let n = match parse_header_name(name) {
        Ok(n) => n,
        Err(cause) => return Err(HttpError::new_invalid_request(cause, None)),
    };
    let v = match parse_header_value(value) {
        Ok(v) => v,
        Err(cause) => return Err(HttpError::new_invalid_request(cause, None)),
    };
    Ok((n, v))
}

} // verus!
