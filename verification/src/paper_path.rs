//! Where the PDF of a document is stored.

use vstd::prelude::*;
use vstd::std_specs::iter::IteratorSpec;
use crate::text::push_char;

verus! {

/// What stands in a file name for one character of a document's identifier.
/// An underscore introduces what stands for a character that is not kept:
/// `__` for the underscore itself, `_s` for a slash and `_d` for a dot. Every
/// other character stands for itself. No two characters are written alike,
/// and what stands for one is never the beginning of what stands for another.
pub open spec fn stem_of_char(c: char) -> Seq<char> {
    if c == '_' {
        seq!['_', '_']
    } else if c == '/' {
        seq!['_', 's']
    } else if c == '.' {
        seq!['_', 'd']
    } else {
        seq![c]
    }
}

/// The file name, without its extension, under which the PDF of the
/// document `id` is stored.
pub open spec fn stem_of(id: Seq<char>) -> Seq<char>
    decreases id.len(),
{
    if id.len() == 0 {
        seq![]
    } else {
        stem_of(id.drop_last()) + stem_of_char(id.last())
    }
}

/// The path of the file in which the PDF of the document `id` is stored.
pub open spec fn path_of(id: Seq<char>) -> Seq<char> {
    "data/pdf_temp/"@ + stem_of(id) + ".pdf"@
}

/// The directory in which the PDFs are stored.
pub fn pdf_directory() -> (directory: &'static str)
    ensures
        directory@ == "data/pdf_temp"@,
{
    "data/pdf_temp"
}

/// The file name, without its extension, of the PDF of the document `paper_id`.
pub fn paper_file_stem(paper_id: &str) -> (stem: String)
    ensures
        stem@ == stem_of(paper_id@),
{
    let mut stem = String::new();
    let mut chars = paper_id.chars();
    let ghost mut done: Seq<char> = seq![];
    loop
        invariant
            stem@ == stem_of(done),
            done + chars.remaining() == paper_id@,
            chars.obeys_prophetic_iter_laws(),
            chars.decrease() is Some,
        decreases chars.decrease()->0,
    {
        let ghost before = chars;
        match chars.next() {
            Some(c) => {
                proof {
                    let longer = done.push(c);
                    assert(longer.drop_last() =~= done);
                    assert(longer + chars.remaining() =~= done + before.remaining());
                    done = longer;
                }
                if c == '_' {
                    proof {
                        reveal_strlit("__");
                    }
                    stem.append("__");
                    assert("__"@ =~= seq!['_', '_']);
                } else if c == '/' {
                    proof {
                        reveal_strlit("_s");
                    }
                    stem.append("_s");
                    assert("_s"@ =~= seq!['_', 's']);
                } else if c == '.' {
                    proof {
                        reveal_strlit("_d");
                    }
                    stem.append("_d");
                    assert("_d"@ =~= seq!['_', 'd']);
                } else {
                    push_char(&mut stem, c);
                }
            },
            None => {
                assert(done =~= paper_id@);
                return stem;
            },
        }
    }
}

/// The path of the file in which the PDF of the document `paper_id` is stored.
pub fn pdf_file_path(paper_id: &str) -> (path: String)
    ensures
        path@ == path_of(paper_id@),
{
    let mut path = "data/pdf_temp/".to_owned();
    let stem = paper_file_stem(paper_id);
    path.append(stem.as_str());
    path.append(".pdf");
    path
}

/// Whether a text holds neither a slash nor a dot.
pub open spec fn separator_free(text: Seq<char>) -> bool {
    forall|i: int| 0 <= i < text.len() ==> text[i] != '/' && text[i] != '.'
}

/// A file name holds neither a slash nor a dot, whatever the identifier.
pub proof fn lemma_stem_is_plain(id: Seq<char>)
    ensures
        separator_free(stem_of(id)),
    decreases id.len(),
{
    if id.len() > 0 {
        let front = id.drop_last();
        let tail = stem_of_char(id.last());
        lemma_stem_is_plain(front);
        assert forall|i: int| 0 <= i < stem_of(id).len() implies stem_of(id)[i] != '/' && stem_of(
            id,
        )[i] != '.' by {
            if i < stem_of(front).len() {
                assert(stem_of(id)[i] == stem_of(front)[i]);
            } else {
                assert(stem_of(id)[i] == tail[i - stem_of(front).len()]);
            }
        }
    }
}

/// The file name of an identifier begins with what stands for its first
/// character, and goes on with the file name of the rest.
pub proof fn lemma_stem_from_front(id: Seq<char>)
    requires
        id.len() > 0,
    ensures
        stem_of(id) == stem_of_char(id[0]) + stem_of(id.drop_first()),
    decreases id.len(),
{
    let rest = id.drop_first();
    if id.len() == 1 {
        assert(id.drop_last() =~= Seq::<char>::empty());
        assert(rest =~= Seq::<char>::empty());
        assert(stem_of(id) =~= stem_of_char(id[0]) + stem_of(rest));
    } else {
        let front = id.drop_last();
        lemma_stem_from_front(front);
        assert(front[0] == id[0]);
        assert(front.drop_first() =~= rest.drop_last());
        assert(rest.last() == id.last());
        assert(stem_of(id) =~= stem_of_char(id[0]) + stem_of(rest));
    }
}

/// No two identifiers are stored under the same file name.
pub proof fn lemma_stem_injective(a: Seq<char>, b: Seq<char>)
    requires
        stem_of(a) == stem_of(b),
    ensures
        a == b,
    decreases a.len(),
{
    if a.len() == 0 {
        if b.len() > 0 {
            lemma_stem_from_front(b);
            assert(stem_of(b).len() > 0);
        }
        assert(a =~= b);
    } else {
        lemma_stem_from_front(a);
        let x = stem_of_char(a[0]);
        let s = stem_of(a.drop_first());
        assert(stem_of(a).len() > 0);
        assert(b.len() > 0);
        lemma_stem_from_front(b);
        let y = stem_of_char(b[0]);
        let t = stem_of(b.drop_first());
        assert((x + s)[0] == x[0]);
        assert((y + t)[0] == y[0]);
        assert(x.len() == y.len());
        if x.len() == 2 {
            assert((x + s)[1] == x[1]);
            assert((y + t)[1] == y[1]);
        }
        assert(a[0] == b[0]);
        assert(s =~= (x + s).subrange(x.len() as int, (x + s).len() as int));
        assert(t =~= (y + t).subrange(y.len() as int, (y + t).len() as int));
        lemma_stem_injective(a.drop_first(), b.drop_first());
        assert(a =~= seq![a[0]] + a.drop_first());
        assert(b =~= seq![b[0]] + b.drop_first());
    }
}

/// No two identifiers are stored in the same file.
pub proof fn lemma_path_injective(a: Seq<char>, b: Seq<char>)
    requires
        path_of(a) == path_of(b),
    ensures
        a == b,
{
    let head = "data/pdf_temp/"@;
    let tail = ".pdf"@;
    assert(stem_of(a) =~= path_of(a).subrange(head.len() as int, path_of(a).len() - tail.len()));
    assert(stem_of(b) =~= path_of(b).subrange(head.len() as int, path_of(b).len() - tail.len()));
    lemma_stem_injective(a, b);
}

} // verus!
