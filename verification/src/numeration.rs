//! Line numeration: the derived text block listing `1..=n`, one number per
//! line, and the proof that it splits into exactly those lines.
use vstd::prelude::*;

use crate::decimal::{dec_seq, is_dec_digit, lemma_dec_seq_digits, push_decimal};
use crate::text::push_char;

verus! {

/// The numeration block for `n` lines: `1\n2\n...\nn\n`, empty for zero.
pub open spec fn numeration_seq(n: nat) -> Seq<char>
    decreases n,
{
    if n == 0 {
        Seq::<char>::empty()
    } else {
        numeration_seq((n - 1) as nat) + dec_seq(n) + seq!['\n']
    }
}

/// Produces the numeration text block for `num_of_lines` lines.
pub fn generate_line_numeration(num_of_lines: usize) -> (r: String)
    ensures
        r@ == numeration_seq(num_of_lines as nat),
{
    let mut line_numeration = String::new();
    let mut i: usize = 0;
    while i < num_of_lines
        invariant
            i <= num_of_lines,
            line_numeration@ == numeration_seq(i as nat),
        decreases num_of_lines - i,
    {
        i = i + 1;
        let ghost before = line_numeration@;
        push_decimal(&mut line_numeration, i as u64);
        push_char(&mut line_numeration, '\n');
        proof {
            assert(line_numeration@ =~= before + dec_seq(i as nat) + seq!['\n']);
        }
    }
    line_numeration
}

/// Index of the first newline in `s`, or the length when there is none.
pub open spec fn first_newline(s: Seq<char>) -> int
    decreases s.len(),
{
    if s.len() == 0 {
        0
    } else if s[0] == '\n' {
        0
    } else {
        1 + first_newline(s.skip(1))
    }
}

proof fn lemma_first_newline_range(s: Seq<char>)
    ensures
        0 <= first_newline(s) <= s.len(),
        forall|j: int| 0 <= j < first_newline(s) ==> s[j] != '\n',
        first_newline(s) < s.len() ==> s[first_newline(s)] == '\n',
    decreases s.len(),
{
    if s.len() > 0 && s[0] != '\n' {
        lemma_first_newline_range(s.skip(1));
        assert forall|j: int| 0 <= j < first_newline(s) implies s[j] != '\n' by {
            if j > 0 {
                assert(s[j] == s.skip(1)[j - 1]);
            }
        }
    }
}

proof fn lemma_first_newline_at(s: Seq<char>, k: int)
    requires
        0 <= k < s.len(),
        forall|j: int| 0 <= j < k ==> s[j] != '\n',
        s[k] == '\n',
    ensures
        first_newline(s) == k,
    decreases s.len(),
{
    if k > 0 {
        let rest = s.skip(1);
        assert forall|j: int| 0 <= j < k - 1 implies rest[j] != '\n' by {
            assert(rest[j] == s[j + 1]);
        }
        assert(rest[k - 1] == '\n');
        lemma_first_newline_at(rest, k - 1);
    }
}

/// The lines of a text block, in the usual reading: a newline ends a line,
/// and a final unterminated stretch still counts as a line.
pub open spec fn lines_of(s: Seq<char>) -> Seq<Seq<char>>
    decreases s.len(),
{
    if s.len() == 0 {
        Seq::<Seq<char>>::empty()
    } else {
        let k = first_newline(s);
        if 0 <= k < s.len() {
            seq![s.take(k)] + lines_of(s.skip(k + 1))
        } else {
            seq![s]
        }
    }
}

/// Appending one newline-free line and its terminator to a block that is
/// empty or newline-terminated appends exactly that one line.
proof fn lemma_lines_append(a: Seq<char>, l: Seq<char>)
    requires
        a.len() == 0 || a.last() == '\n',
        forall|i: int| 0 <= i < l.len() ==> l[i] != '\n',
    ensures
        lines_of(a + l + seq!['\n']) =~~= lines_of(a).push(l),
    decreases a.len(),
{
    let s = a + l + seq!['\n'];
    if a.len() == 0 {
        assert forall|j: int| 0 <= j < l.len() implies s[j] != '\n' by {
            assert(s[j] == l[j]);
        }
        assert(s[l.len() as int] == '\n');
        lemma_first_newline_at(s, l.len() as int);
        assert(s.take(l.len() as int) =~= l);
        assert(s.skip(l.len() as int + 1) =~= Seq::<char>::empty());
        assert(s.len() == l.len() + 1);
        assert(first_newline(s) == l.len() as int);
        assert(lines_of(s) == seq![s.take(l.len() as int)] + lines_of(
            s.skip(l.len() as int + 1),
        ));
        assert(lines_of(Seq::<char>::empty()) == Seq::<Seq<char>>::empty());
        assert(lines_of(s) =~~= lines_of(a).push(l));
    } else {
        let ka = first_newline(a);
        lemma_first_newline_range(a);
        if ka == a.len() {
            assert(a[a.len() - 1] == '\n');
            assert(false);
        }
        assert(a[ka] == '\n');
        assert forall|j: int| 0 <= j < ka implies s[j] != '\n' by {
            assert(s[j] == a[j]);
        }
        assert(s[ka] == a[ka]);
        lemma_first_newline_at(s, ka);
        let tail = a.skip(ka + 1);
        assert(tail.len() == 0 || tail.last() == '\n') by {
            if tail.len() > 0 {
                assert(tail.last() == a.last());
            }
        }
        assert(s.skip(ka + 1) =~= tail + l + seq!['\n']);
        lemma_lines_append(tail, l);
        assert(s.take(ka) =~= a.take(ka));
        assert(lines_of(s) =~~= seq![a.take(ka)] + lines_of(tail).push(l));
        assert(seq![a.take(ka)] + lines_of(tail).push(l) =~~= (seq![a.take(ka)] + lines_of(
            tail,
        )).push(l));
        assert(lines_of(a) == seq![a.take(ka)] + lines_of(tail));
    }
}

proof fn lemma_numeration_terminated(n: nat)
    ensures
        n == 0 ==> numeration_seq(n).len() == 0,
        n > 0 ==> numeration_seq(n).len() > 0 && numeration_seq(n).last() == '\n',
{
}

/// The numeration block for `n` lines splits into exactly `n` lines, the
/// line at index `i` being the decimal notation of `i + 1`: line numbers
/// count from one, in order.
pub proof fn lemma_numeration_lines(n: nat)
    ensures
        lines_of(numeration_seq(n)).len() == n,
        forall|i: int|
            0 <= i < n ==> #[trigger] lines_of(numeration_seq(n))[i] == dec_seq((i + 1) as nat),
    decreases n,
{
    if n > 0 {
        lemma_numeration_lines((n - 1) as nat);
        lemma_numeration_terminated((n - 1) as nat);
        lemma_dec_seq_digits(n);
        assert forall|i: int| 0 <= i < dec_seq(n).len() implies dec_seq(n)[i] != '\n' by {
            assert(is_dec_digit(dec_seq(n)[i]));
        }
        lemma_lines_append(numeration_seq((n - 1) as nat), dec_seq(n));
        assert(lines_of(numeration_seq(n)) =~~= lines_of(numeration_seq((n - 1) as nat)).push(
            dec_seq(n),
        ));
    }
}

} // verus!
