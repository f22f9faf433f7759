//! How a media endpoint reads back: the path before the first `?`, and the
//! query after it (up to a `#`) split into `name=value` pairs at `&`.

use vstd::prelude::*;
use crate::model;
use crate::cdn_model;
use crate::text::{decimal, is_decimal_char, lemma_decimal_alphabet};

verus! {

/// Index of the first `c` in `s`, or `s.len()` when there is none.
pub open spec fn find(s: Seq<char>, c: char) -> int
    decreases s.len(),
{
    if s.len() == 0 {
        0
    } else if s[0] == c {
        0
    } else {
        1 + find(s.drop_first(), c)
    }
}

/// The pieces of `s` between the separators `sep`, in order (empty pieces kept).
pub open spec fn split(s: Seq<char>, sep: char) -> Seq<Seq<char>>
    decreases s.len(),
{
    let i = find(s, sep);
    if i < 0 || i >= s.len() {
        seq![s]
    } else {
        seq![s.take(i)] + split(s.skip(i + 1), sep)
    }
}

/// The pieces that are not empty, in order.
pub open spec fn non_empty(pieces: Seq<Seq<char>>) -> Seq<Seq<char>>
    decreases pieces.len(),
{
    if pieces.len() == 0 {
        pieces
    } else if pieces[0].len() == 0 {
        non_empty(pieces.drop_first())
    } else {
        seq![pieces[0]] + non_empty(pieces.drop_first())
    }
}

/// A `name=value` piece, split at its first `=` (no `=`: an empty value).
pub open spec fn pair_of(piece: Seq<char>) -> (Seq<char>, Seq<char>) {
    let i = find(piece, '=');
    if i < piece.len() {
        (piece.take(i), piece.skip(i + 1))
    } else {
        (piece, Seq::empty())
    }
}

/// The path of a relative URL: what precedes its first `?`.
pub open spec fn url_path(url: Seq<char>) -> Seq<char> {
    url.take(find(url, '?'))
}

/// The query of a relative URL: what follows its first `?`, up to a `#`.
pub open spec fn url_query(url: Seq<char>) -> Seq<char> {
    let i = find(url, '?');
    if i < url.len() {
        let rest = url.skip(i + 1);
        rest.take(find(rest, '#'))
    } else {
        Seq::empty()
    }
}

/// The path with one leading `/` removed, if it has one.
pub open spec fn strip_slash(path: Seq<char>) -> Seq<char> {
    if path.len() > 0 && path[0] == '/' {
        path.drop_first()
    } else {
        path
    }
}

/// The `name=value` pairs of a query, in order, empty pieces dropped. The
/// form encoding's `+` and `%XX` escapes are not decoded here; on text
/// without `%` and `+` decoding changes nothing.
pub open spec fn query_pairs(query: Seq<char>) -> Seq<(Seq<char>, Seq<char>)> {
    non_empty(split(query, '&')).map_values(|piece: Seq<char>| pair_of(piece))
}

/// A character with a role in a URL or its query.
pub open spec fn is_url_reserved(c: char) -> bool {
    c == '/' || c == '?' || c == '#' || c == '&' || c == '=' || c == '%' || c == '+'
}

/// Text that reads back as itself in a path segment or a query value.
pub open spec fn url_plain(s: Seq<char>) -> bool {
    forall|i: int| 0 <= i < s.len() ==> !is_url_reserved(#[trigger] s[i])
}

pub open spec fn lacks(s: Seq<char>, c: char) -> bool {
    forall|i: int| 0 <= i < s.len() ==> #[trigger] s[i] != c
}

proof fn lemma_find_bounds(s: Seq<char>, c: char)
    ensures
        0 <= find(s, c) <= s.len(),
        find(s, c) < s.len() ==> s[find(s, c)] == c,
    decreases s.len(),
{
    if s.len() > 0 && s[0] != c {
        lemma_find_bounds(s.drop_first(), c);
    }
}

proof fn lemma_find_absent(s: Seq<char>, c: char)
    requires
        lacks(s, c),
    ensures
        find(s, c) == s.len(),
    decreases s.len(),
{
    if s.len() > 0 {
        assert(s[0] != c);
        lemma_find_absent(s.drop_first(), c);
    }
}

proof fn lemma_find_first(a: Seq<char>, c: char, b: Seq<char>)
    requires
        lacks(a, c),
    ensures
        find(a + seq![c] + b, c) == a.len(),
    decreases a.len(),
{
    let s = a + seq![c] + b;
    if a.len() > 0 {
        assert(s[0] == a[0]);
        assert(a[0] != c);
        assert(s.drop_first() =~= a.drop_first() + seq![c] + b);
        lemma_find_first(a.drop_first(), c, b);
    } else {
        assert(s[0] == c);
    }
}

proof fn lemma_split_absent(s: Seq<char>, sep: char)
    requires
        lacks(s, sep),
    ensures
        split(s, sep) == seq![s],
{
    lemma_find_absent(s, sep);
}

proof fn lemma_split_first(a: Seq<char>, sep: char, b: Seq<char>)
    requires
        lacks(a, sep),
    ensures
        split(a + seq![sep] + b, sep) == seq![a] + split(b, sep),
{
    let s = a + seq![sep] + b;
    lemma_find_first(a, sep, b);
    assert(s.take(a.len() as int) =~= a);
    assert(s.skip(a.len() as int + 1) =~= b);
}

proof fn lemma_pair_of(name: Seq<char>, value: Seq<char>)
    requires
        lacks(name, '='),
    ensures
        pair_of(name + seq!['='] + value) == (name, value),
{
    let s = name + seq!['='] + value;
    lemma_find_first(name, '=', value);
    assert(s.take(name.len() as int) =~= name);
    assert(s.skip(name.len() as int + 1) =~= value);
}

proof fn lemma_plain_lacks(s: Seq<char>)
    requires
        url_plain(s),
    ensures
        lacks(s, '/'),
        lacks(s, '?'),
        lacks(s, '#'),
        lacks(s, '&'),
        lacks(s, '='),
{
    assert forall|i: int| 0 <= i < s.len() implies #[trigger] s[i] != '?' && s[i] != '/' && s[i]
        != '#' && s[i] != '&' && s[i] != '=' by {
        assert(!is_url_reserved(s[i]));
    }
}

proof fn lemma_decimal_plain(n: int)
    ensures
        url_plain(decimal(n)),
{
    lemma_decimal_alphabet(n);
    assert forall|i: int| 0 <= i < decimal(n).len() implies !is_url_reserved(
        #[trigger] decimal(n)[i],
    ) by {
        assert(is_decimal_char(decimal(n)[i]));
    }
}

/// The query `id={digits}&checksum={file_hash}` reads back as exactly the
/// pairs `id` and `checksum`.
proof fn lemma_media_query(digits: Seq<char>, file_hash: Seq<char>)
    requires
        url_plain(digits),
        url_plain(file_hash),
    ensures
        ({
            let q = seq!['i', 'd', '='] + digits + seq!['&', 'c', 'h', 'e', 'c', 'k', 's', 'u', 'm', '='] + file_hash;
            &&& lacks(q, '#')
            &&& query_pairs(q) == seq![(seq!['i', 'd'], digits), (seq!['c', 'h', 'e', 'c', 'k', 's', 'u', 'm'], file_hash)]
        }),
{
    let id_name = seq!['i', 'd'];
    let ck_name = seq!['c', 'h', 'e', 'c', 'k', 's', 'u', 'm'];
    let q = seq!['i', 'd', '='] + digits + seq!['&', 'c', 'h', 'e', 'c', 'k', 's', 'u', 'm', '='] + file_hash;
    lemma_plain_lacks(digits);
    lemma_plain_lacks(file_hash);
    assert(lacks(q, '#')) by {
        assert forall|i: int| 0 <= i < q.len() implies #[trigger] q[i] != '#' by {
            let k = 3 + digits.len();
            if i < 3 {
            } else if i < k {
                assert(q[i] == digits[i - 3]);
            } else if i < k + 10 {
            } else {
                assert(q[i] == file_hash[i - k - 10]);
            }
        }
    }
    let id_piece = id_name + seq!['='] + digits;
    let ck_piece = ck_name + seq!['='] + file_hash;
    assert(q =~= id_piece + seq!['&'] + ck_piece);
    assert(lacks(id_piece, '&')) by {
        assert forall|i: int| 0 <= i < id_piece.len() implies #[trigger] id_piece[i] != '&' by {
            if i >= 3 {
                assert(id_piece[i] == digits[i - 3]);
            }
        }
    }
    lemma_split_first(id_piece, '&', ck_piece);
    assert(lacks(ck_piece, '&')) by {
        assert forall|i: int| 0 <= i < ck_piece.len() implies #[trigger] ck_piece[i] != '&' by {
            if i >= 9 {
                assert(ck_piece[i] == file_hash[i - 9]);
            }
        }
    }
    lemma_split_absent(ck_piece, '&');
    let pieces = split(q, '&');
    let tail1 = seq![ck_piece];
    let none = Seq::<Seq<char>>::empty();
    assert(pieces =~= seq![id_piece, ck_piece]);
    assert(pieces.drop_first() =~= tail1);
    assert(tail1.drop_first() =~= none);
    assert(non_empty(none) == none);
    assert(tail1[0] == ck_piece && ck_piece.len() > 0);
    assert(non_empty(tail1) == seq![ck_piece] + non_empty(none));
    assert(non_empty(tail1) =~= tail1);
    assert(pieces[0] == id_piece && id_piece.len() > 0);
    assert(non_empty(pieces) == seq![id_piece] + non_empty(tail1));
    assert(non_empty(pieces) =~= pieces);
    assert(lacks(id_name, '='));
    assert(lacks(ck_name, '='));
    lemma_pair_of(id_name, digits);
    lemma_pair_of(ck_name, file_hash);
    assert(query_pairs(q) =~= seq![(id_name, digits), (ck_name, file_hash)]);
}

/// Reading back a URL `path + "?" + query`, where the path has no `?` and
/// the query no `#`.
proof fn lemma_split_url(path: Seq<char>, query: Seq<char>)
    requires
        lacks(path, '?'),
        lacks(query, '#'),
    ensures
        url_path(path + seq!['?'] + query) == path,
        url_query(path + seq!['?'] + query) == query,
{
    let url = path + seq!['?'] + query;
    lemma_find_first(path, '?', query);
    assert(url.take(path.len() as int) =~= path);
    assert(url.skip(path.len() as int + 1) =~= query);
    lemma_find_absent(query, '#');
    assert(query.take(query.len() as int) =~= query);
}

/// An endpoint `/{file_name}?{query}` names its file, whatever characters the
/// name holds, as long as it holds no `?` (which would end the path early).
proof fn lemma_path_reads_back(file_name: Seq<char>, query: Seq<char>)
    requires
        lacks(file_name, '?'),
    ensures
        strip_slash(url_path(seq!['/'] + file_name + seq!['?'] + query)) == file_name,
{
    let path = seq!['/'] + file_name;
    assert(lacks(path, '?')) by {
        assert forall|i: int| 0 <= i < path.len() implies #[trigger] path[i] != '?' by {
            if i > 0 {
                assert(path[i] == file_name[i - 1]);
            }
        }
    }
    lemma_find_first(path, '?', query);
    let url = path + seq!['?'] + query;
    assert(url.take(path.len() as int) =~= path);
    assert(path.drop_first() =~= file_name);
}

/// The server's endpoint names its file for every file name without `?`,
/// including names with `&`, `=`, spaces or other characters: the path, less
/// its leading `/`, is the file name.
pub proof fn lemma_server_endpoint_path(file_name: Seq<char>, id: int, file_hash: Seq<char>)
    requires
        lacks(file_name, '?'),
    ensures
        strip_slash(url_path(model::rel_endpoint_of(file_name, id, file_hash))) == file_name,
{
    reveal_strlit("/");
    reveal_strlit("?id=");
    assert("/"@ =~= seq!['/']);
    assert("?id="@ =~= seq!['?', 'i', 'd', '=']);
    let query = seq!['i', 'd', '='] + decimal(id) + "&checksum="@ + file_hash;
    assert(model::rel_endpoint_of(file_name, id, file_hash) =~= seq!['/'] + file_name + seq!['?'] + query);
    lemma_path_reads_back(file_name, query);
}

/// The CDN's endpoint names its file for every file name without `?`: the
/// path, less its leading `/`, is the file name.
pub proof fn lemma_cdn_endpoint_path(file_name: Seq<char>, id: int, file_hash: Seq<char>)
    requires
        lacks(file_name, '?'),
    ensures
        strip_slash(url_path(cdn_model::rel_endpoint_of(file_name, id, file_hash))) == file_name,
{
    reveal_strlit("/");
    reveal_strlit("?id=");
    assert("/"@ =~= seq!['/']);
    assert("?id="@ =~= seq!['?', 'i', 'd', '=']);
    let query = seq!['i', 'd', '='] + decimal(id) + "&checksum="@ + file_hash;
    assert(cdn_model::rel_endpoint_of(file_name, id, file_hash) =~= seq!['/'] + file_name + seq!['?'] + query);
    lemma_path_reads_back(file_name, query);
}

/// The server's endpoint reads back as the media it names: its path, less the
/// leading `/`, is the file name, and its query holds exactly the pairs
/// `id` (the id in decimal, which reads back as the id) and `checksum` (the
/// file's checksum), for a file name and checksum with no character that has
/// a role in a URL.
pub proof fn lemma_server_endpoint_reads_back(file_name: Seq<char>, id: int, file_hash: Seq<char>)
    requires
        url_plain(file_name),
        url_plain(file_hash),
    ensures
        strip_slash(url_path(model::rel_endpoint_of(file_name, id, file_hash))) == file_name,
        query_pairs(url_query(model::rel_endpoint_of(file_name, id, file_hash))) == seq![
            ("id"@, decimal(id)),
            ("checksum"@, file_hash),
        ],
{
    reveal_strlit("/");
    reveal_strlit("?id=");
    reveal_strlit("&checksum=");
    reveal_strlit("id");
    reveal_strlit("checksum");
    lemma_decimal_plain(id);
    lemma_plain_lacks(file_name);
    lemma_media_query(decimal(id), file_hash);
    let path = seq!['/'] + file_name;
    let q = seq!['i', 'd', '='] + decimal(id) + seq!['&', 'c', 'h', 'e', 'c', 'k', 's', 'u', 'm', '='] + file_hash;
    assert(lacks(path, '?')) by {
        assert forall|i: int| 0 <= i < path.len() implies #[trigger] path[i] != '?' by {
            if i > 0 {
                assert(path[i] == file_name[i - 1]);
            }
        }
    }
    assert(model::rel_endpoint_of(file_name, id, file_hash) =~= path + seq!['?'] + q);
    lemma_split_url(path, q);
    assert(path.drop_first() =~= file_name);
    assert("id"@ =~= seq!['i', 'd']);
    assert("checksum"@ =~= seq!['c', 'h', 'e', 'c', 'k', 's', 'u', 'm']);
}

/// The CDN's endpoint reads back as the media it names: its path, less the
/// leading `/`, is the file name, and its query holds exactly the
/// pairs `id` (the id in decimal, which reads back as the id) and `checksum`
/// (the file's checksum), for a file name and checksum with no character that
/// has a role in a URL.
pub proof fn lemma_cdn_endpoint_reads_back(file_name: Seq<char>, id: int, file_hash: Seq<char>)
    requires
        url_plain(file_name),
        url_plain(file_hash),
    ensures
        strip_slash(url_path(cdn_model::rel_endpoint_of(file_name, id, file_hash))) == file_name,
        query_pairs(url_query(cdn_model::rel_endpoint_of(file_name, id, file_hash))) == seq![
            ("id"@, decimal(id)),
            ("checksum"@, file_hash),
        ],
{
    reveal_strlit("/");
    reveal_strlit("?id=");
    reveal_strlit("&checksum=");
    reveal_strlit("id");
    reveal_strlit("checksum");
    lemma_decimal_plain(id);
    lemma_plain_lacks(file_name);
    lemma_media_query(decimal(id), file_hash);
    let path = seq!['/'] + file_name;
    let q = seq!['i', 'd', '='] + decimal(id) + seq!['&', 'c', 'h', 'e', 'c', 'k', 's', 'u', 'm', '='] + file_hash;
    assert(lacks(path, '?')) by {
        assert forall|i: int| 0 <= i < path.len() implies #[trigger] path[i] != '?' by {
            if i > 0 {
                assert(path[i] == file_name[i - 1]);
            }
        }
    }
    assert(cdn_model::rel_endpoint_of(file_name, id, file_hash) =~= path + seq!['?'] + q);
    lemma_split_url(path, q);
    assert(path.drop_first() =~= file_name);
    assert("id"@ =~= seq!['i', 'd']);
    assert("checksum"@ =~= seq!['c', 'h', 'e', 'c', 'k', 's', 'u', 'm']);
}

} // verus!
