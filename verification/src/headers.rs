//! The headers of a response, as far as checksum validation reads them.

use vstd::prelude::*;
use vstd::string::StringSliceAdditionalSpecFns;

verus! {

/// The bytes that write `text`.
pub open spec fn bytes_of(text: Seq<char>) -> Seq<u8> {
    vstd::utf8::encode_utf8(text)
}

/// The lower-case form of an ASCII upper-case letter, and every other byte as it is.
pub open spec fn lower(b: u8) -> u8 {
    if 0x41 <= b <= 0x5a {
        (b + 0x20) as u8
    } else {
        b
    }
}

/// Whether two byte strings are equal up to the case of their ASCII letters.
pub open spec fn same_ignoring_case(a: Seq<u8>, b: Seq<u8>) -> bool {
    &&& a.len() == b.len()
    &&& forall|i: int| 0 <= i < a.len() ==> lower(a[i]) == lower(b[i])
}

fn to_lower(b: u8) -> (l: u8)
    ensures
        l == lower(b),
{
    if 0x41 <= b && b <= 0x5a {
        b + 0x20
    } else {
        b
    }
}

/// Whether `a` and `b` are equal up to the case of their ASCII letters.
pub fn eq_ignore_ascii_case(a: &str, b: &str) -> (same: bool)
    ensures
        same == same_ignoring_case(bytes_of(a@), bytes_of(b@)),
{
    let left = a.as_bytes();
    let right = b.as_bytes();
    if left.len() != right.len() {
        return false;
    }
    let mut i: usize = 0;
    while i < left.len()
        invariant
            i <= left.len(),
            left.len() == right.len(),
            left@ == bytes_of(a@),
            right@ == bytes_of(b@),
            forall|j: int| 0 <= j < i ==> lower(left@[j]) == lower(right@[j]),
        decreases left.len() - i,
    {
        if to_lower(left[i]) != to_lower(right[i]) {
            return false;
        }
        i += 1;
    }
    true
}

/// One header: its name and its value.
pub struct Header {
    pub name: String,
    pub value: String,
}

/// The headers of a message, in the order in which they were added. Names
/// are found whatever the case of their letters.
pub struct Headers {
    entries: Vec<Header>,
}

/// The value of the first of `entries` whose name is `name` up to case.
pub open spec fn first_value(entries: Seq<Header>, name: Seq<u8>) -> Option<String>
    decreases entries.len(),
{
    if entries.len() == 0 {
        None
    } else if same_ignoring_case(bytes_of(entries[0].name@), name) {
        Some(entries[0].value)
    } else {
        first_value(entries.skip(1), name)
    }
}

impl View for Headers {
    type V = Seq<Header>;

    closed spec fn view(&self) -> Seq<Header> {
        self.entries@
    }
}

impl Headers {
    /// No headers.
    pub fn new() -> (headers: Self)
        ensures
            headers@ == Seq::<Header>::empty(),
    {
        Headers { entries: Vec::new() }
    }

    /// Adds a header after those that are there.
    pub fn append(&mut self, name: String, value: String)
        ensures
            final(self)@ == old(self)@.push(Header { name, value }),
    {
        self.entries.push(Header { name, value });
    }

    /// The value of the first header called `name`, whatever the case of its letters.
    pub fn get(&self, name: &str) -> (value: Option<&str>)
        ensures
            match first_value(self@, bytes_of(name@)) {
                Some(found) => value.is_some() && value.unwrap()@ == found@,
                None => value.is_none(),
            },
    {
        let mut i: usize = 0;
        assert(self@.skip(0) =~= self@);
        while i < self.entries.len()
            invariant
                i <= self.entries.len(),
                first_value(self@, bytes_of(name@)) == first_value(
                    self@.skip(i as int),
                    bytes_of(name@),
                ),
            decreases self.entries.len() - i,
        {
            let entry = &self.entries[i];
            assert(self@.skip(i as int)[0] == self@[i as int]);
            assert(self@.skip(i as int).skip(1) =~= self@.skip(i as int + 1));
            if eq_ignore_ascii_case(entry.name.as_str(), name) {
                return Some(entry.value.as_str());
            }
            i += 1;
        }
        None
    }
}

} // verus!
