use vstd::prelude::*;
use vstd::std_specs::iter::IteratorSpec;

verus! {

/// Whether appending a path segment to `dir` calls for a `/` in between: as with
/// a path join, none is added after an empty path or one that already ends in `/`.
pub open spec fn needs_separator(dir: Seq<char>) -> bool {
    dir.len() > 0 && dir.last() != '/'
}

/// `<data_dir>/images`: the directory that holds every saved image. The
/// separator is always `/`, also on hosts whose native separator differs.
pub open spec fn images_dir_of(data_dir: Seq<char>) -> Seq<char> {
    if needs_separator(data_dir) {
        data_dir + seq!['/', 'i', 'm', 'a', 'g', 'e', 's']
    } else {
        data_dir + seq!['i', 'm', 'a', 'g', 'e', 's']
    }
}

/// `<data_dir>/images/<file_name>`, with the file name taken verbatim. The images
/// directory never ends in `/`, so a separator always comes before the name.
pub open spec fn image_path_of(data_dir: Seq<char>, file_name: Seq<char>) -> Seq<char> {
    images_dir_of(data_dir) + seq!['/'] + file_name
}

/// Whether `s` ends in `/`.
fn ends_with_separator(s: &str) -> (r: bool)
    ensures
        r == (s@.len() > 0 && s@.last() == '/'),
{
    broadcast use vstd::string::axiom_spec_iter, vstd::string::next_postcondition;

    let mut chars = s.chars();
    let mut last: Option<char> = None;
    let ghost mut seen: int = 0;
    loop
        invariant
            0 <= seen <= s@.len(),
            chars.remaining() == s@.skip(seen),
            last == (if seen == 0 {
                None
            } else {
                Some(s@[seen - 1])
            }),
        ensures
            seen == s@.len(),
        decreases s@.len() - seen,
    {
        match chars.next() {
            Some(c) => {
                assert(s@.skip(seen).len() > 0);
                assert(s@.skip(seen).drop_first() =~= s@.skip(seen + 1));
                last = Some(c);
                proof {
                    seen = seen + 1;
                }
            },
            None => {
                assert(s@.skip(seen).len() == 0);
                break;
            },
        }
    }
    match last {
        Some(c) => c == '/',
        None => false,
    }
}

/// The images directory under `data_dir`.
pub fn images_dir(data_dir: &str) -> (r: String)
    ensures
        r@ == images_dir_of(data_dir@),
{
    proof {
        reveal_strlit("/images");
        reveal_strlit("images");
    }
    if data_dir.is_empty() || ends_with_separator(data_dir) {
        String::from_str(data_dir).concat("images")
    } else {
        String::from_str(data_dir).concat("/images")
    }
}

/// Where the image called `file_name` is stored under `data_dir`.
pub fn image_path(data_dir: &str, file_name: &str) -> (r: String)
    ensures
        r@ == image_path_of(data_dir@, file_name@),
{
    proof {
        reveal_strlit("/");
    }
    images_dir(data_dir).concat("/").concat(file_name)
}

/// Whatever the data directory, the stored path ends in `images/<file_name>`.
pub proof fn lemma_image_path_ends_in_name(data_dir: Seq<char>, file_name: Seq<char>)
    ensures
        ({
            let p = image_path_of(data_dir, file_name);
            let tail = seq!['i', 'm', 'a', 'g', 'e', 's', '/'] + file_name;
            p.len() >= tail.len() && p.subrange(p.len() - tail.len(), p.len() as int) == tail
        }),
{
    let p = image_path_of(data_dir, file_name);
    let tail = seq!['i', 'm', 'a', 'g', 'e', 's', '/'] + file_name;
    assert(p.subrange(p.len() - tail.len(), p.len() as int) =~= tail);
}

/// Two saves under one data directory reach the same file exactly when they
/// name the same file: saving again under a name replaces that file and no other.
pub proof fn lemma_same_file_iff_same_name(
    data_dir: Seq<char>,
    first: Seq<char>,
    second: Seq<char>,
)
    ensures
        image_path_of(data_dir, first) == image_path_of(data_dir, second) <==> first == second,
{
    let prefix = images_dir_of(data_dir) + seq!['/'];
    let p1 = image_path_of(data_dir, first);
    let p2 = image_path_of(data_dir, second);
    if p1 == p2 {
        assert(first =~= p1.subrange(prefix.len() as int, p1.len() as int));
        assert(second =~= p2.subrange(prefix.len() as int, p2.len() as int));
    }
}

} // verus!
