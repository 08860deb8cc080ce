use vstd::prelude::*;
use vstd::std_specs::iter::IteratorSpec;

verus! {

/// One remote-tracking branch, as listed by the version-control tool.
pub struct RefEntry {
    /// The branch name with the remote prefix stripped.
    pub short_name: String,
    /// The commit date, in the tool's own textual format.
    pub commit_date: String,
}

impl View for RefEntry {
    type V = (Seq<char>, Seq<char>);

    open spec fn view(&self) -> (Seq<char>, Seq<char>) {
        (self.short_name@, self.commit_date@)
    }
}

/// The prefix that every listed remote-tracking ref carries.
pub open spec fn remote_prefix() -> Seq<char> {
    seq!['o', 'r', 'i', 'g', 'i', 'n', '/']
}

/// The symbolic default-branch pointer, which is not a real branch.
pub open spec fn head_name() -> Seq<char> {
    seq!['H', 'E', 'A', 'D']
}

/// Index of the first `c` in `s` at or after `i`, or `s.len()` when there is none.
pub open spec fn find_from(s: Seq<char>, c: char, i: int) -> int
    decreases s.len() - i,
{
    if i >= s.len() {
        s.len() as int
    } else if s[i] == c {
        i
    } else {
        find_from(s, c, i + 1)
    }
}

/// A line `origin/<name>|<date>` read as `(name, date)`; `None` for a line that
/// has no `|` or whose ref field lacks the remote prefix (an empty line among them).
pub open spec fn ref_of_line(line: Seq<char>) -> Option<(Seq<char>, Seq<char>)> {
    let bar = find_from(line, '|', 0);
    let field = line.subrange(0, bar);
    if bar < line.len() && remote_prefix().is_prefix_of(field) {
        Some((field.skip(remote_prefix().len() as int), line.skip(bar + 1)))
    } else {
        None
    }
}

/// Whether a line names a real branch that can be checked out.
pub open spec fn is_branch_line(line: Seq<char>) -> bool {
    ref_of_line(line) is Some && ref_of_line(line).unwrap().0 != head_name()
}

/// The first branch line of `s` among the lines that start at or after `start`.
pub open spec fn select_from(s: Seq<char>, start: int) -> Option<(Seq<char>, Seq<char>)>
    decreases s.len() - start,
    when start >= 0
    via select_from_decreases
{
    if start >= s.len() {
        None
    } else {
        let end = find_from(s, '\n', start);
        let line = s.subrange(start, end);
        if is_branch_line(line) {
            ref_of_line(line)
        } else if end < s.len() {
            select_from(s, end + 1)
        } else {
            None
        }
    }
}

#[via_fn]
proof fn select_from_decreases(s: Seq<char>, start: int) {
    if 0 <= start < s.len() {
        lemma_find_from_bounds(s, '\n', start);
        assert(s.len() - (find_from(s, '\n', start) + 1) < s.len() - start);
    }
}

/// The branch to synchronise to: the first line of the listing, in its order,
/// that parses and does not name `HEAD`.
pub open spec fn latest_branch(listing: Seq<char>) -> Option<(Seq<char>, Seq<char>)> {
    select_from(listing, 0)
}

pub proof fn lemma_find_from_bounds(s: Seq<char>, c: char, i: int)
    requires
        0 <= i <= s.len(),
    ensures
        i <= find_from(s, c, i) <= s.len(),
        find_from(s, c, i) < s.len() ==> s[find_from(s, c, i)] == c,
        forall|k: int| i <= k < find_from(s, c, i) ==> s[k] != c,
    decreases s.len() - i,
{
    if i < s.len() && s[i] != c {
        lemma_find_from_bounds(s, c, i + 1);
    }
}

/// The characters of `s`, one per element.
fn chars_of(s: &String) -> (r: Vec<char>)
    ensures
        r@ == s@,
{
    broadcast use vstd::string::group_string_axioms;

    let mut it = s.as_str().chars();
    let mut v: Vec<char> = Vec::new();
    loop
        invariant
            v@ + it.remaining() == s@,
            it.decrease() is Some,
        ensures
            v@ == s@,
        decreases it.decrease()->0,
    {
        match it.next() {
            Some(c) => v.push(c),
            None => {
                assert(v@ + it.remaining() =~= v@);
                break;
            },
        }
    }
    v
}

/// Index of the first `c` in `cs` at or after `from` and before `to`, or `to`.
fn find_in(cs: &Vec<char>, c: char, from: usize, to: usize) -> (r: usize)
    requires
        from <= to <= cs@.len(),
    ensures
        r == from + find_from(cs@.subrange(from as int, to as int), c, 0),
{
    let ghost line = cs@.subrange(from as int, to as int);
    let mut k: usize = from;
    while k < to && cs[k] != c
        invariant
            from <= k <= to,
            to <= cs@.len(),
            line == cs@.subrange(from as int, to as int),
            find_from(line, c, 0) == find_from(line, c, k - from),
        decreases to - k,
    {
        assert(line[k - from] == cs@[k as int]);
        k = k + 1;
    }
    k
}

/// Where the branch name and the date of the line `cs[start..end]` lie: the
/// index of the `|` that ends the ref field, when the line is a ref line.
fn ref_line_bar(cs: &Vec<char>, start: usize, end: usize) -> (r: Option<usize>)
    requires
        start <= end <= cs@.len(),
    ensures
        ({
            let line = cs@.subrange(start as int, end as int);
            match r {
                Some(bar) => {
                    &&& ref_of_line(line) is Some
                    &&& bar == start + find_from(line, '|', 0)
                },
                None => ref_of_line(line) is None,
            }
        }),
{
    let ghost line = cs@.subrange(start as int, end as int);
    let bar = find_in(cs, '|', start, end);
    proof {
        lemma_find_from_bounds(line, '|', 0);
    }
    if bar == end || bar - start < 7 {
        return None;
    }
    let ghost field = line.subrange(0, bar - start);
    if cs[start] == 'o' && cs[start + 1] == 'r' && cs[start + 2] == 'i' && cs[start + 3] == 'g'
        && cs[start + 4] == 'i' && cs[start + 5] == 'n' && cs[start + 6] == '/' {
        assert(remote_prefix() =~= field.subrange(0, 7));
        Some(bar)
    } else {
        assert(!remote_prefix().is_prefix_of(field)) by {
            if remote_prefix().is_prefix_of(field) {
                assert(field.subrange(0, 7)[0] == 'o');
                assert(field.subrange(0, 7)[1] == 'r');
                assert(field.subrange(0, 7)[2] == 'i');
                assert(field.subrange(0, 7)[3] == 'g');
                assert(field.subrange(0, 7)[4] == 'i');
                assert(field.subrange(0, 7)[5] == 'n');
                assert(field.subrange(0, 7)[6] == '/');
            }
        }
        None
    }
}

/// Whether `cs[from..to]` reads `HEAD`.
fn is_head(cs: &Vec<char>, from: usize, to: usize) -> (r: bool)
    requires
        from <= to <= cs@.len(),
    ensures
        r == (cs@.subrange(from as int, to as int) == head_name()),
{
    let ghost name = cs@.subrange(from as int, to as int);
    if to - from != 4 {
        assert(name.len() != head_name().len());
        return false;
    }
    let r = cs[from] == 'H' && cs[from + 1] == 'E' && cs[from + 2] == 'A' && cs[from + 3] == 'D';
    if r {
        assert(name =~= head_name());
    } else {
        assert(name != head_name()) by {
            if name == head_name() {
                assert(name[0] == 'H' && name[1] == 'E' && name[2] == 'A' && name[3] == 'D');
            }
        }
    }
    r
}

/// Picks the branch to check out from the output of a ref listing that is
/// sorted by commit date, newest first: the first line of the form
/// `origin/<name>|<date>` whose name is not `HEAD`. Lines of another form are
/// skipped. `None` when no line qualifies, as for an empty listing.
pub fn select_latest_branch(listing: &String) -> (r: Option<RefEntry>)
    ensures
        match r {
            Some(e) => latest_branch(listing@) == Some(e@),
            None => latest_branch(listing@) is None,
        },
{
    let cs = chars_of(listing);
    let n = cs.len();
    let mut start: usize = 0;
    while start < n
        invariant
            cs@ == listing@,
            n == cs@.len(),
            start <= n,
            latest_branch(listing@) == select_from(cs@, start as int),
        decreases n - start,
    {
        let end = find_in(&cs, '\n', start, n);
        proof {
            lemma_find_from_bounds(cs@, '\n', start as int);
            lemma_find_from_shift(cs@, '\n', start as int);
            assert(cs@.subrange(start as int, n as int) =~= cs@.subrange(start as int, cs@.len() as int));
        }
        let ghost line = cs@.subrange(start as int, end as int);
        match ref_line_bar(&cs, start, end) {
            Some(bar) => {
                proof {
                    lemma_find_from_bounds(line, '|', 0);
                }
                let ghost field = line.subrange(0, bar - start);
                assert(cs@.subrange(start as int + 7, bar as int) =~= field.skip(7));
                if !is_head(&cs, start + 7, bar) {
                    let short_name = listing.as_str().substring_char(start + 7, bar).to_owned();
                    let commit_date = listing.as_str().substring_char(bar + 1, end).to_owned();
                    assert(commit_date@ =~= line.skip(bar - start + 1));
                    return Some(RefEntry { short_name, commit_date });
                }
            },
            None => {},
        }
        assert(!is_branch_line(line));
        if end == n {
            return None;
        }
        start = end + 1;
    }
    None
}

/// How many non-empty lines of `s`, among those that start at or after `start`,
/// are not ref lines.
pub open spec fn malformed_from(s: Seq<char>, start: int) -> nat
    decreases s.len() - start,
    when start >= 0
    via malformed_from_decreases
{
    if start >= s.len() {
        0
    } else {
        let end = find_from(s, '\n', start);
        let line = s.subrange(start, end);
        let here: nat = if line.len() > 0 && ref_of_line(line) is None {
            1
        } else {
            0
        };
        if end < s.len() {
            here + malformed_from(s, end + 1)
        } else {
            here
        }
    }
}

#[via_fn]
proof fn malformed_from_decreases(s: Seq<char>, start: int) {
    if 0 <= start < s.len() {
        lemma_find_from_bounds(s, '\n', start);
    }
}

/// Counts the non-empty lines of a ref listing that are not of the form
/// `origin/<name>|<date>`, which selection skips.
pub fn malformed_ref_lines(listing: &String) -> (r: usize)
    ensures
        r == malformed_from(listing@, 0),
{
    let cs = chars_of(listing);
    let n = cs.len();
    let mut start: usize = 0;
    let mut count: usize = 0;
    while start < n
        invariant
            cs@ == listing@,
            n == cs@.len(),
            start <= n,
            count <= start,
            malformed_from(listing@, 0) == count + malformed_from(cs@, start as int),
        decreases n - start,
    {
        let end = find_in(&cs, '\n', start, n);
        proof {
            lemma_find_from_bounds(cs@, '\n', start as int);
            lemma_find_from_shift(cs@, '\n', start as int);
            assert(cs@.subrange(start as int, n as int) =~= cs@.subrange(start as int, cs@.len() as int));
        }
        if end > start && ref_line_bar(&cs, start, end).is_none() {
            count = count + 1;
        }
        if end == n {
            return count;
        }
        start = end + 1;
    }
    count
}

/// Searching the whole sequence from `i` for `c` finds the same place as
/// searching the part from `i` up to that place.
proof fn lemma_find_from_shift(s: Seq<char>, c: char, i: int)
    requires
        0 <= i <= s.len(),
    ensures
        find_from(s, c, i) == i + find_from(s.subrange(i, s.len() as int), c, 0),
        find_from(s, c, i) == i + find_from(s.subrange(i, find_from(s, c, i)), c, 0),
{
    lemma_find_from_bounds(s, c, i);
    let e = find_from(s, c, i);
    let t = s.subrange(i, s.len() as int);
    let u = s.subrange(i, e);
    assert forall|j: int| 0 <= j <= e - i implies #[trigger] find_from(t, c, j) == find_from(t, c, e - i) by {
        lemma_find_from_walk(t, c, j, e - i);
    }
    assert forall|j: int| 0 <= j <= e - i implies #[trigger] find_from(u, c, j) == u.len() by {
        lemma_find_from_walk(u, c, j, e - i);
    }
    assert(find_from(t, c, e - i) == e - i);
}

/// Where no `c` lies in `s[j..k]`, the search from `j` goes on from `k`.
proof fn lemma_find_from_walk(s: Seq<char>, c: char, j: int, k: int)
    requires
        0 <= j <= k <= s.len(),
        forall|m: int| j <= m < k ==> s[m] != c,
    ensures
        find_from(s, c, j) == find_from(s, c, k),
    decreases k - j,
{
    if j < k {
        lemma_find_from_walk(s, c, j + 1, k);
    }
}

} // verus!
