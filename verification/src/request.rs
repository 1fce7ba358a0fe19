//! Reading a request head: the status line, header lines and the length of
//! the body that follows.
use vstd::prelude::*;
use crate::http::{HeaderMap, header_text, lemma_header_text_inserted};
use crate::keyed::{KeyedList, inserted, keys_unique, law_insert_lookup, lookup};
use crate::text::{
    decimal, decimal_value, index_of, is_blank, law_decimal_roundtrip, lemma_index_of_window,
    parse_usize, pieces, split_all, trim, trim_copy,
};

verus! {

/// The error for a status line with fewer than three space-separated fields.
pub open spec fn missing_version_error() -> Seq<char> {
    "Http Version Not Found!"@
}

proof fn lemma_pieces_nonempty(s: Seq<char>, sep: char)
    ensures
        pieces(s, sep).len() >= 1,
{
    reveal_with_fuel(pieces, 1);
}

/// Method, path and version: the first three fields of the status line,
/// separated by single spaces. Whatever follows the third field (the line
/// end among it) stays with it or is dropped.
pub fn get_status_data(status_line: String) -> (r: Result<(String, String, String), String>)
    ensures
        r is Ok <==> pieces(status_line@, ' ').len() >= 3,
        r matches Ok((m, p, v)) ==> m@ == pieces(status_line@, ' ')[0] && p@ == pieces(
            status_line@,
            ' ',
        )[1] && v@ == pieces(status_line@, ' ')[2],
        r matches Err(e) ==> e@ == missing_version_error(),
{
    let parts = split_all(status_line.as_str(), ' ');
    proof {
        lemma_pieces_nonempty(status_line@, ' ');
        assert(parts@.len() == pieces(status_line@, ' ').len());
    }
    if parts.len() < 3 {
        return Err(String::from_str("Http Version Not Found!"));
    }
    let method = parts[0].clone();
    let path = parts[1].clone();
    let version = parts[2].clone();
    proof {
        assert(parts@.map_values(|p: String| p@)[0] == parts@[0]@);
        assert(parts@.map_values(|p: String| p@)[1] == parts@[1]@);
        assert(parts@.map_values(|p: String| p@)[2] == parts@[2]@);
    }
    Ok((method, path, version))
}

/// Name and value of a header line: the text before the first `:` and the
/// text between the first and the second `:`, each trimmed; the value is
/// empty when the line has no `:`.
pub open spec fn header_pair(line: Seq<char>) -> (Seq<char>, Seq<char>) {
    let p = pieces(line, ':');
    (trim(p[0]), if p.len() > 1 {
        trim(p[1])
    } else {
        Seq::empty()
    })
}

/// The name and value that a header line carries.
pub fn parse_header_line(line: &str) -> (r: (String, String))
    ensures
        (r.0@, r.1@) == header_pair(line@),
{
    let parts = split_all(line, ':');
    proof {
        lemma_pieces_nonempty(line@, ':');
        assert(parts@.map_values(|p: String| p@)[0] == parts@[0]@);
    }
    let key = trim_copy(parts[0].as_str());
    let value = if parts.len() > 1 {
        assert(parts@.map_values(|p: String| p@)[1] == parts@[1]@);
        trim_copy(parts[1].as_str())
    } else {
        String::new()
    };
    (key, value)
}

/// Takes one line of the request head. A line that is blank once trimmed
/// ends the head: nothing is stored and `false` comes back. Any other line
/// stores its header (a later line for the same name wins) and gives `true`.
pub fn add_header_line(header: &mut HeaderMap, line: &str) -> (more: bool)
    ensures
        more == (trim(line@).len() != 0),
        !more ==> final(header)@ == old(header)@,
        more ==> header_text(final(header)@) == inserted(
            header_text(old(header)@),
            header_pair(line@).0,
            header_pair(line@).1,
        ),
{
    if is_blank(line) {
        return false;
    }
    let (key, value) = parse_header_line(line);
    let ghost v = value;
    let _ = header.len();
    header.insert(key, value);
    proof {
        lemma_header_text_inserted(old(header)@, header_pair(line@).0, v);
    }
    true
}

/// The headers that the lines of a request head give, starting from `h`:
/// line by line, each line's name and value stored (a later line for the same
/// name wins), up to the first line that is blank once trimmed; that line and
/// whatever follows it are not read.
pub open spec fn fold_header_lines(
    h: Seq<(Seq<char>, Seq<char>)>,
    lines: Seq<Seq<char>>,
) -> Seq<(Seq<char>, Seq<char>)>
    decreases lines.len(),
{
    if lines.len() == 0 || trim(lines[0]).len() == 0 {
        h
    } else {
        fold_header_lines(
            inserted(h, header_pair(lines[0]).0, header_pair(lines[0]).1),
            lines.drop_first(),
        )
    }
}

/// None of `lines` ends the head.
pub open spec fn none_blank(lines: Seq<Seq<char>>) -> bool {
    forall|i: int| 0 <= i < lines.len() ==> trim(#[trigger] lines[i]).len() != 0
}

/// Reading one more line of a head whose lines so far were not blank: a
/// blank line leaves the headers of the whole head as they are, whatever
/// follows it; any other line stores its name and value on top of them. So
/// calling `add_header_line` on each line read, until it answers `false`,
/// gives the headers of the head.
pub proof fn law_header_lines_fold(
    h: Seq<(Seq<char>, Seq<char>)>,
    read: Seq<Seq<char>>,
    line: Seq<char>,
    rest: Seq<Seq<char>>,
)
    requires
        none_blank(read),
    ensures
        trim(line).len() == 0 ==> fold_header_lines(h, read + seq![line] + rest)
            == fold_header_lines(h, read),
        trim(line).len() != 0 ==> fold_header_lines(h, read.push(line)) == inserted(
            fold_header_lines(h, read),
            header_pair(line).0,
            header_pair(line).1,
        ),
    decreases read.len(),
{
    if read.len() == 0 {
        assert((read + seq![line] + rest)[0] == line);
        assert(read.push(line)[0] == line);
        assert(read.push(line).drop_first() =~= Seq::<Seq<char>>::empty());
        assert(fold_header_lines(h, read) == h);
        let h1 = inserted(h, header_pair(line).0, header_pair(line).1);
        assert(fold_header_lines(h1, Seq::<Seq<char>>::empty()) == h1);
    } else {
        let first = read[0];
        assert(trim(first).len() != 0);
        let h1 = inserted(h, header_pair(first).0, header_pair(first).1);
        let tail = read.drop_first();
        assert(none_blank(tail)) by {
            assert forall|i: int| 0 <= i < tail.len() implies trim(#[trigger] tail[i]).len()
                != 0 by {
                assert(tail[i] == read[i + 1]);
            }
        }
        law_header_lines_fold(h1, tail, line, rest);
        assert((read + seq![line] + rest)[0] == first);
        assert((read + seq![line] + rest).drop_first() =~= tail + seq![line] + rest);
        assert(read.push(line)[0] == first);
        assert(read.push(line).drop_first() =~= tail.push(line));
    }
}

/// The headers of a request head given as its lines, as the server reads
/// them: each line in turn goes through `add_header_line` until one ends the
/// head.
pub fn headers_of_lines(lines: &Vec<String>) -> (r: HeaderMap)
    ensures
        header_text(r@) == fold_header_lines(
            Seq::empty(),
            lines@.map_values(|l: String| l@),
        ),
{
    let ghost all = lines@.map_values(|l: String| l@);
    let mut header: HeaderMap = KeyedList::new();
    let n = lines.len();
    let mut i: usize = 0;
    assert(all.take(0) =~= Seq::<Seq<char>>::empty());
    assert(header_text(header@) =~= Seq::<(Seq<char>, Seq<char>)>::empty());
    while i < n
        invariant
            i <= n,
            n == lines@.len(),
            all == lines@.map_values(|l: String| l@),
            none_blank(all.take(i as int)),
            header_text(header@) == fold_header_lines(Seq::empty(), all.take(i as int)),
        decreases n - i,
    {
        let ghost line = all[i as int];
        assert(lines@[i as int]@ == line);
        proof {
            law_header_lines_fold(Seq::empty(), all.take(i as int), line, all.skip(i + 1));
            assert(all.take(i as int) + seq![line] + all.skip(i + 1) =~= all);
            assert(all.take(i as int).push(line) =~= all.take(i + 1));
        }
        if !add_header_line(&mut header, lines[i].as_str()) {
            return header;
        }
        proof {
            assert forall|j: int| 0 <= j < i + 1 implies trim(
                #[trigger] all.take(i + 1)[j],
            ).len() != 0 by {
                if j < i {
                    assert(all.take(i + 1)[j] == all.take(i as int)[j]);
                }
            }
        }
        i = i + 1;
    }
    assert(all.take(n as int) =~= all);
    header
}

/// The body length that the headers announce: the trimmed `Content-Length`
/// value read as an unsigned number; 0 when the header is missing or does
/// not read as a `usize`.
pub open spec fn announced_length(h: Seq<(Seq<char>, String)>) -> nat {
    match lookup(h, "Content-Length"@) {
        Some(v) => match decimal_value(trim(v@)) {
            Some(n) => if n <= usize::MAX {
                n
            } else {
                0
            },
            None => 0,
        },
        None => 0,
    }
}

/// How many body bytes follow the head.
pub fn content_length(header: &HeaderMap) -> (n: usize)
    ensures
        n == announced_length(header@),
{
    match header.get("Content-Length") {
        Some(value) => {
            let t = trim_copy(value.as_str());
            match parse_usize(t.as_str()) {
                Some(n) => n,
                None => 0,
            }
        },
        None => 0,
    }
}

/// A header line written as `name:value`, where neither holds a `:` nor
/// surrounding whitespace, is read back as that name and value.
pub proof fn law_header_line_roundtrip(k: Seq<char>, v: Seq<char>)
    requires
        index_of(k, ':') is None,
        index_of(v, ':') is None,
        trim(k) == k,
        trim(v) == v,
    ensures
        header_pair(k + ":"@ + v) == (k, v),
{
    reveal_strlit(":");
    let line = k + ":"@ + v;
    assert(line =~= k + seq![':'] + v);
    lemma_no_index_means_absent(k, ':');
    assert forall|j: int| 0 <= j < k.len() implies line[j] != ':' by {
        assert(line[j] == k[j]);
    }
    lemma_index_of_window(line, ':', 0, k.len() as int);
    assert(line.skip(0) =~= line);
    assert(line.take(k.len() as int) =~= k);
    assert(line.skip(k.len() as int + 1) =~= v);
    reveal_with_fuel(pieces, 2);
    assert(pieces(line, ':') =~= seq![k] + pieces(v, ':'));
    assert(pieces(v, ':') =~= seq![v]);
}

proof fn lemma_no_index_means_absent(s: Seq<char>, c: char)
    requires
        index_of(s, c) is None,
    ensures
        forall|j: int| 0 <= j < s.len() ==> s[j] != c,
    decreases s.len(),
{
    if s.len() > 0 {
        lemma_no_index_means_absent(s.drop_first(), c);
        assert forall|j: int| 0 <= j < s.len() implies s[j] != c by {
            if j > 0 {
                assert(s[j] == s.drop_first()[j - 1]);
            }
        }
    }
}

/// A `Content-Length` stored with the decimal writing of `n` announces `n`
/// bytes of body.
pub proof fn law_content_length_roundtrip(h: Seq<(Seq<char>, String)>, v: String, n: nat)
    requires
        keys_unique(h),
        v@ == decimal(n),
        n <= usize::MAX,
    ensures
        announced_length(inserted(h, "Content-Length"@, v)) == n,
{
    law_insert_lookup(h, "Content-Length"@, v, "Content-Length"@);
    law_decimal_roundtrip(n);
}

} // verus!
