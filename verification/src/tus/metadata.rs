//! The metadata of an upload and its `Upload-Metadata` header.
use vstd::prelude::*;
use crate::http::{base64_encode, base64_standard};
use crate::text::{join, joined, push_char, push_str, strings_view};

verus! {

/// The name and type of the file, and further entries, name and value.
#[derive(Clone, Debug)]
pub struct Metadata {
    pub filename: Option<String>,
    pub filetype: Option<String>,
    pub custom: Vec<(String, String)>,
}

/// One entry of the header: the key, a space and the base64 of the value.
pub open spec fn metadata_part(key: Seq<char>, value: Seq<char>) -> Seq<char> {
    key + " "@ + base64_standard(value)
}

/// The entries of the header: the file name, the file type, then the further
/// entries in order.
pub open spec fn metadata_parts(m: Metadata) -> Seq<Seq<char>> {
    (match m.filename {
        Some(f) => seq![metadata_part("filename"@, f@)],
        None => Seq::empty(),
    }) + (match m.filetype {
        Some(t) => seq![metadata_part("filetype"@, t@)],
        None => Seq::empty(),
    }) + m.custom@.map_values(|p: (String, String)| metadata_part(p.0@, p.1@))
}

fn part(key: &str, value: &str) -> (r: String)
    ensures
        r@ == metadata_part(key@, value@),
{
    let mut s = String::new();
    push_str(&mut s, key);
    push_char(&mut s, ' ');
    let encoded = base64_encode(value);
    push_str(&mut s, encoded.as_str());
    proof {
        reveal_strlit(" ");
        assert(s@ =~= metadata_part(key@, value@));
    }
    s
}

impl Metadata {
    /// No file name, no file type, no further entries.
    pub fn new() -> (r: Metadata)
        ensures
            r.filename is None,
            r.filetype is None,
            r.custom@.len() == 0,
    {
        Metadata { filename: None, filetype: None, custom: Vec::new() }
    }

    /// The `Upload-Metadata` header: the entries joined by commas.
    pub fn to_header(&self) -> (r: String)
        ensures
            r@ == joined(metadata_parts(*self), ','),
    {
        let mut parts: Vec<String> = Vec::new();
        if let Some(filename) = &self.filename {
            parts.push(part("filename", filename.as_str()));
        }
        if let Some(filetype) = &self.filetype {
            parts.push(part("filetype", filetype.as_str()));
        }
        let ghost head = strings_view(parts@);
        let mut i: usize = 0;
        while i < self.custom.len()
            invariant
                i <= self.custom@.len(),
                strings_view(parts@) == head + self.custom@.subrange(0, i as int).map_values(
                    |p: (String, String)| metadata_part(p.0@, p.1@),
                ),
            decreases self.custom@.len() - i,
        {
            let p = part(self.custom[i].0.as_str(), self.custom[i].1.as_str());
            let ghost before = parts@;
            let ghost pv = p@;
            parts.push(p);
            proof {
                assert(strings_view(parts@) =~= strings_view(before).push(pv));
                let f = |p: (String, String)| metadata_part(p.0@, p.1@);
                assert(self.custom@.subrange(0, i as int + 1).map_values(f) =~= self.custom@.subrange(
                    0,
                    i as int,
                ).map_values(f).push(f(self.custom@[i as int])));
                assert(self.custom@.subrange(0, i as int + 1) == self.custom@.subrange(0, i as int).push(
                    self.custom@[i as int],
                ));
                assert(strings_view(parts@) =~= head + self.custom@.subrange(0, i as int + 1).map_values(
                    |p: (String, String)| metadata_part(p.0@, p.1@),
                ));
            }
            i = i + 1;
        }
        proof {
            assert(self.custom@.subrange(0, self.custom@.len() as int) == self.custom@);
            assert(strings_view(parts@) =~= metadata_parts(*self));
        }
        join(&parts, ',')
    }
}

} // verus!
