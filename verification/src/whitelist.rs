use crate::text::{contains_text, from_chars, join, joined, owned, texts, to_chars};
use vstd::prelude::*;

verus! {

/// The place of the first line feed of a text, or -1 where it has none.
pub open spec fn first_line_feed(text: Seq<char>) -> int
    decreases text.len(),
{
    if text.len() == 0 {
        -1
    } else if text[0] == '\n' {
        0
    } else {
        let later = first_line_feed(text.drop_first());
        if later < 0 {
            -1
        } else {
            later + 1
        }
    }
}

/// A line without the carriage return that stood before its line feed.
pub open spec fn without_return(line: Seq<char>) -> Seq<char> {
    if line.len() > 0 && line.last() == '\r' {
        line.drop_last()
    } else {
        line
    }
}

/// The lines of a text. A line ends at a line feed, or at a carriage return
/// and a line feed; neither belongs to the line. What follows the last line
/// feed is a line unless it is empty.
pub open spec fn lines_of(text: Seq<char>) -> Seq<Seq<char>>
    decreases text.len(),
{
    let at = first_line_feed(text);
    if text.len() == 0 {
        Seq::empty()
    } else if at < 0 || at >= text.len() {
        seq![text]
    } else {
        seq![without_return(text.take(at))] + lines_of(text.skip(at + 1))
    }
}

/// Where the first line feed is, for a text that begins with a stretch
/// without any.
pub proof fn lemma_first_line_feed(before: Seq<char>, rest: Seq<char>)
    requires
        forall|i: int| 0 <= i < before.len() ==> before[i] != '\n',
    ensures
        first_line_feed(before + rest) == if first_line_feed(rest) < 0 {
            -1
        } else {
            before.len() + first_line_feed(rest)
        },
        first_line_feed(rest) < rest.len(),
    decreases before.len() + rest.len(),
{
    if before.len() == 0 {
        assert(before + rest =~= rest);
        if rest.len() > 0 {
            lemma_first_line_feed(before, rest.drop_first());
        }
    } else {
        lemma_first_line_feed(before.drop_first(), rest);
        assert((before + rest).drop_first() =~= before.drop_first() + rest);
    }
}

/// The list of allowed files that a whitelist file holds: one path on each
/// line.
pub fn parse_allowed_files(content: &str) -> (list: Vec<String>)
    ensures
        texts(list@) == lines_of(content@),
{
    let chars = to_chars(content);
    let mut list: Vec<String> = Vec::new();
    let mut line: Vec<char> = Vec::new();
    let mut i: usize = 0;
    proof {
        assert(chars@.skip(0) =~= chars@);
        assert(line@ + chars@ =~= chars@);
        assert(texts(list@) + lines_of(chars@) =~= lines_of(chars@));
    }
    while i < chars.len()
        invariant
            i <= chars.len(),
            chars@ == content@,
            forall|k: int| 0 <= k < line.len() ==> line@[k] != '\n',
            lines_of(content@) == texts(list@) + lines_of(line@ + chars@.skip(i as int)),
        decreases chars.len() - i,
    {
        let c = chars[i];
        let ghost rest = chars@.skip(i as int);
        let ghost after = chars@.skip(i + 1);
        let ghost whole = line@ + rest;
        proof {
            assert(rest[0] == c);
            assert(rest.drop_first() =~= after);
        }
        if c == '\n' {
            proof {
                lemma_first_line_feed(line@, rest);
                assert(first_line_feed(rest) == 0);
                assert(whole.take(line.len() as int) =~= line@);
                assert(whole.skip(line.len() + 1) =~= after);
                assert(lines_of(whole) == seq![without_return(line@)] + lines_of(after));
            }
            let n = line.len();
            let ghost full = line@;
            if n > 0 && line[n - 1] == '\r' {
                line.pop();
            }
            assert(line@ =~= without_return(full));
            let ghost before = texts(list@);
            list.push(from_chars(&line));
            line = Vec::new();
            proof {
                assert(texts(list@) =~= before + seq![list@.last()@]);
                assert(line@ + after =~= after);
            }
        } else {
            let ghost grown = line@.push(c);
            line.push(c);
            proof {
                assert(grown + after =~= whole);
            }
        }
        i += 1;
    }
    proof {
        let rest = chars@.skip(i as int);
        assert(rest =~= Seq::<char>::empty());
        assert(line@ + rest =~= line@);
        lemma_first_line_feed(line@, rest);
    }
    if line.len() > 0 {
        let ghost before = texts(list@);
        list.push(from_chars(&line));
        assert(texts(list@) =~= before + seq![line@]);
    } else {
        assert(texts(list@) + Seq::<Seq<char>>::empty() =~= texts(list@));
    }
    list
}

/// The text of a whitelist file: the paths with a line feed between each
/// two.
pub fn render_allowed_files(list: &Vec<String>) -> (content: String)
    ensures
        content@ == joined(texts(list@), "\n"@),
{
    join(list, "\n")
}

/// The whitelist with a file allowed: the path comes to stand at the end
/// unless the list holds it already.
pub open spec fn with_allowed(list: Seq<Seq<char>>, path: Seq<char>) -> Seq<Seq<char>> {
    if list.contains(path) {
        list
    } else {
        list.push(path)
    }
}

/// Append a file to the list of allowed files.
pub fn append_allowed_file(whitelist: Vec<String>, path: &str) -> (list: Vec<String>)
    ensures
        texts(list@) == with_allowed(texts(whitelist@), path@),
{
    let mut list = whitelist;
    if !contains_text(&list, path) {
        let ghost before = texts(list@);
        list.push(owned(path));
        assert(texts(list@) =~= before.push(path@));
    }
    list
}

/// The whitelist without the files that are not among `paths`, the others
/// in the order they had.
pub open spec fn pruned(list: Seq<Seq<char>>, paths: Seq<Seq<char>>) -> Seq<Seq<char>> {
    list.filter(|p: Seq<char>| paths.contains(p))
}

/// Keeps of the allowed files those that are among `paths`.
pub fn prune_allowed_files(whitelist: &Vec<String>, paths: &Vec<String>) -> (list: Vec<String>)
    ensures
        texts(list@) == pruned(texts(whitelist@), texts(paths@)),
{
    let mut list: Vec<String> = Vec::new();
    let ghost all = texts(whitelist@);
    let ghost keep = |p: Seq<char>| texts(paths@).contains(p);
    let mut i: usize = 0;
    proof {
        reveal(Seq::filter);
        assert(all.take(0) =~= Seq::<Seq<char>>::empty());
        assert(texts(list@) =~= all.take(0).filter(keep));
    }
    while i < whitelist.len()
        invariant
            i <= whitelist.len(),
            all == texts(whitelist@),
            keep == |p: Seq<char>| texts(paths@).contains(p),
            texts(list@) == all.take(i as int).filter(keep),
        decreases whitelist.len() - i,
    {
        proof {
            reveal(Seq::filter);
            let next = all.take(i + 1);
            assert(next.drop_last() =~= all.take(i as int));
            assert(next.last() == whitelist@[i as int]@);
        }
        if contains_text(paths, whitelist[i].as_str()) {
            let ghost before = texts(list@);
            list.push(owned(whitelist[i].as_str()));
            assert(texts(list@) =~= before.push(whitelist@[i as int]@));
        }
        i += 1;
    }
    assert(all.take(whitelist.len() as int) =~= all);
    list
}

/// Whether a query file may be read or written: it is on the whitelist.
pub fn is_allowed(whitelist: &Vec<String>, path: &str) -> (allowed: bool)
    ensures
        allowed == texts(whitelist@).contains(path@),
{
    contains_text(whitelist, path)
}

} // verus!
