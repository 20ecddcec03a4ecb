//! Recognising image files by the extension of their file name.

use vstd::prelude::*;
use vstd::string::StringSliceAdditionalSpecFns;

verus! {

/// The path separator, `/`.
pub const SLASH: u8 = 0x2f;

/// The dot that starts an extension, `.`.
pub const DOT: u8 = 0x2e;

/// Index of the last occurrence of `c` in `s`, or -1 when `c` does not occur.
pub open spec fn last_pos(s: Seq<u8>, c: u8) -> int
    decreases s.len(),
{
    if s.len() == 0 {
        -1
    } else if s.last() == c {
        s.len() - 1
    } else {
        last_pos(s.drop_last(), c)
    }
}

pub proof fn lemma_last_pos_bounds(s: Seq<u8>, c: u8)
    ensures
        -1 <= last_pos(s, c) < s.len(),
        last_pos(s, c) >= 0 ==> s[last_pos(s, c)] == c,
    decreases s.len(),
{
    if s.len() > 0 && s.last() != c {
        lemma_last_pos_bounds(s.drop_last(), c);
    }
}

/// The file name of a path: what follows its last `/`.
pub open spec fn file_name(path: Seq<u8>) -> Seq<u8> {
    path.subrange(last_pos(path, SLASH) + 1, path.len() as int)
}

/// The extension of a file name: what follows its last `.`, where that dot
/// is not the name's first byte.
pub open spec fn extension(name: Seq<u8>) -> Option<Seq<u8>> {
    let dot = last_pos(name, DOT);
    if dot > 0 {
        Some(name.subrange(dot + 1, name.len() as int))
    } else {
        None
    }
}

/// The extensions that mark an image file, compared case-sensitively:
/// `jpg`, `jpeg`, `png` and `bmp` as ASCII bytes.
pub open spec fn is_image_extension(ext: Seq<u8>) -> bool {
    ||| ext == seq![106u8, 112, 103]
    ||| ext == seq![106u8, 112, 101, 103]
    ||| ext == seq![112u8, 110, 103]
    ||| ext == seq![98u8, 109, 112]
}

/// Whether the UTF-8 bytes of a path name an image file.
pub open spec fn is_image_path(path: Seq<u8>) -> bool {
    match extension(file_name(path)) {
        Some(ext) => is_image_extension(ext),
        None => false,
    }
}

/// Position of the last `c` among `bytes[start..]`, relative to `start`.
fn last_pos_from(bytes: &[u8], start: usize, c: u8) -> (r: Option<usize>)
    requires
        start <= bytes@.len(),
    ensures
        ({
            let p = last_pos(bytes@.subrange(start as int, bytes@.len() as int), c);
            match r {
                Some(k) => p == k,
                None => p == -1,
            }
        }),
{
    let n = bytes.len();
    let mut found: Option<usize> = None;
    let mut i: usize = start;
    while i < n
        invariant
            n == bytes@.len(),
            start <= i <= n,
            ({
                let p = last_pos(bytes@.subrange(start as int, i as int), c);
                match found {
                    Some(k) => p == k,
                    None => p == -1,
                }
            }),
        decreases n - i,
    {
        assert(bytes@.subrange(start as int, i + 1).drop_last() =~= bytes@.subrange(
            start as int,
            i as int,
        ));
        if bytes[i] == c {
            found = Some(i - start);
        }
        i = i + 1;
    }
    assert(bytes@.subrange(start as int, i as int) =~= bytes@.subrange(start as int, n as int));
    found
}

fn ext_is(bytes: &[u8], start: usize, lit: &[u8]) -> (r: bool)
    requires
        start <= bytes@.len(),
    ensures
        r == (bytes@.subrange(start as int, bytes@.len() as int) == lit@),
{
    if bytes.len() - start != lit.len() {
        assert(bytes@.subrange(start as int, bytes@.len() as int).len() != lit@.len());
        return false;
    }
    let n = bytes.len();
    let mut i: usize = 0;
    while i < lit.len()
        invariant
            n == bytes@.len(),
            start <= bytes@.len(),
            bytes@.len() - start == lit@.len(),
            0 <= i <= lit@.len(),
            forall|j: int| 0 <= j < i ==> bytes@[start + j] == lit@[j],
        decreases lit@.len() - i,
    {
        if bytes[start + i] != lit[i] {
            assert(bytes@.subrange(start as int, bytes@.len() as int)[i as int] != lit@[i as int]);
            return false;
        }
        i = i + 1;
    }
    assert(bytes@.subrange(start as int, bytes@.len() as int) =~= lit@);
    true
}

fn has_image_extension_at(bytes: &[u8], start: usize) -> (r: bool)
    requires
        start <= bytes@.len(),
    ensures
        r == is_image_extension(bytes@.subrange(start as int, bytes@.len() as int)),
{
    let jpg: [u8; 3] = [106, 112, 103];
    let jpeg: [u8; 4] = [106, 112, 101, 103];
    let png: [u8; 3] = [112, 110, 103];
    let bmp: [u8; 3] = [98, 109, 112];
    assert(jpg@ =~= seq![106u8, 112, 103]);
    assert(jpeg@ =~= seq![106u8, 112, 101, 103]);
    assert(png@ =~= seq![112u8, 110, 103]);
    assert(bmp@ =~= seq![98u8, 109, 112]);
    let a = ext_is(bytes, start, &jpg);
    let b = ext_is(bytes, start, &jpeg);
    let c = ext_is(bytes, start, &png);
    let d = ext_is(bytes, start, &bmp);
    a || b || c || d
}

/// Whether `path` names an image file: its file name has one of the
/// extensions `jpg`, `jpeg`, `png` or `bmp`, in lower case.
pub fn is_image_file(path: &str) -> (r: bool)
    ensures
        r == is_image_path(path.spec_bytes()),
{
    let bytes = path.as_bytes();
    let n = bytes.len();
    let ghost b = bytes@;
    assert(b.subrange(0, b.len() as int) =~= b);
    let slash = last_pos_from(bytes, 0, SLASH);
    proof {
        lemma_last_pos_bounds(b, SLASH);
    }
    let name_start = match slash {
        Some(k) => k + 1,
        None => 0,
    };
    let ghost name = file_name(b);
    assert(name =~= b.subrange(name_start as int, b.len() as int));
    let dot = last_pos_from(bytes, name_start, DOT);
    proof {
        lemma_last_pos_bounds(name, DOT);
    }
    match dot {
        Some(d) if d > 0 => {
            let ext_start = name_start + d + 1;
            assert(name.subrange(d + 1, name.len() as int) =~= b.subrange(
                ext_start as int,
                b.len() as int,
            ));
            has_image_extension_at(bytes, ext_start)
        },
        _ => false,
    }
}

} // verus!
