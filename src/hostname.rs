//! The guest hostname as read from its configuration file.
use vstd::prelude::*;

verus! {

/// Index of the first line terminator at or after `i`, or the length of `s`
/// when there is none.
pub open spec fn line_end_from(s: Seq<char>, i: int) -> int
    decreases s.len() - i,
{
    if i < 0 || i >= s.len() || s[i] == '\n' {
        i
    } else {
        line_end_from(s, i + 1)
    }
}

/// The text before the first line terminator of `s` (all of `s` when it has none).
pub open spec fn first_line(s: Seq<char>) -> Seq<char> {
    s.take(line_end_from(s, 0))
}

proof fn lemma_line_end_bounds(s: Seq<char>, i: int)
    requires
        0 <= i <= s.len(),
    ensures
        i <= line_end_from(s, i) <= s.len(),
        forall|j: int| i <= j < line_end_from(s, i) ==> s[j] != '\n',
        line_end_from(s, i) < s.len() ==> s[line_end_from(s, i)] == '\n',
    decreases s.len() - i,
{
    if i < s.len() && s[i] != '\n' {
        lemma_line_end_bounds(s, i + 1);
    }
}

/// The hostname that a hostname file with contents `contents` designates:
/// everything before its first line terminator.
pub fn hostname_from_contents(contents: &str) -> (r: String)
    ensures
        r@ == first_line(contents@),
{
    let n = contents.unicode_len();
    let mut i: usize = 0;
    while i < n && contents.get_char(i) != '\n'
        invariant
            n == contents@.len(),
            0 <= i <= n,
            line_end_from(contents@, i as int) == line_end_from(contents@, 0),
        decreases n - i,
    {
        i = i + 1;
    }
    assert(line_end_from(contents@, i as int) == i);
    String::from_str(contents.substring_char(0, i))
}

/// When the contents hold a line terminator, the hostname is exactly the text
/// before the first one.
pub proof fn lemma_hostname_stops_at_first_terminator(contents: Seq<char>, k: int)
    requires
        0 <= k < contents.len(),
        contents[k] == '\n',
        forall|j: int| 0 <= j < k ==> contents[j] != '\n',
    ensures
        first_line(contents) == contents.take(k),
{
    lemma_line_end_before(contents, k, 0);
}

proof fn lemma_line_end_before(s: Seq<char>, k: int, i: int)
    requires
        0 <= i <= k <= s.len(),
        k < s.len() ==> s[k] == '\n',
        forall|j: int| i <= j < k ==> s[j] != '\n',
    ensures
        line_end_from(s, i) == k,
    decreases k - i,
{
    if i < k {
        lemma_line_end_before(s, k, i + 1);
    }
}

/// When the contents hold no line terminator, the hostname is the whole of
/// them, unchanged.
pub proof fn lemma_hostname_without_terminator_is_whole(contents: Seq<char>)
    requires
        !contents.contains('\n'),
    ensures
        first_line(contents) == contents,
{
    assert forall|j: int| 0 <= j < contents.len() implies contents[j] != '\n' by {
        if contents[j] == '\n' {
            assert(contents.contains('\n'));
        }
    }
    lemma_line_end_before(contents, contents.len() as int, 0);
    assert(contents.take(contents.len() as int) =~= contents);
}

/// The hostname never holds a line terminator, and it is a prefix of the contents.
pub proof fn lemma_hostname_is_terminator_free_prefix(contents: Seq<char>)
    ensures
        !first_line(contents).contains('\n'),
        contents.take(first_line(contents).len() as int) == first_line(contents),
{
    lemma_line_end_bounds(contents, 0);
    let l = first_line(contents);
    if l.contains('\n') {
        let j = choose|j: int| 0 <= j < l.len() && l[j] == '\n';
        assert(contents[j] == '\n');
    }
}

} // verus!
