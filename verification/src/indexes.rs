//! Task selections written in a request path: a comma-separated list of task
//! ids, or of 1-based positions in the active context.
use vstd::prelude::*;
use crate::structs::Task;
use crate::text::{
    all_digits, digit_value, decimal, digit_char, digits_of, digits_value, is_digit, parse_i32_chars, parse_i32_spec,
};

verus! {

/// The pieces of a text between commas, as `str::split(',')` yields them:
/// always at least one piece, empty pieces kept.
pub open spec fn split_commas(s: Seq<char>) -> Seq<Seq<char>>
    decreases s.len(),
{
    if s.len() == 0 {
        seq![Seq::empty()]
    } else {
        let pieces = split_commas(s.drop_last());
        if s.last() == ',' {
            pieces.push(Seq::empty())
        } else {
            pieces.update(pieces.len() - 1, pieces.last().push(s.last()))
        }
    }
}

/// The numbers that the pieces spell, in order; pieces that are not an
/// `i32` are left out.
pub open spec fn parsed_pieces(pieces: Seq<Seq<char>>) -> Seq<i32>
    decreases pieces.len(),
{
    if pieces.len() == 0 {
        Seq::empty()
    } else {
        let rest = parsed_pieces(pieces.drop_last());
        match parse_i32_spec(pieces.last()) {
            Some(v) => rest.push(v),
            None => rest,
        }
    }
}

/// The numbers of a comma-separated list, unreadable entries left out.
pub open spec fn indexes_of(s: Seq<char>) -> Seq<i32> {
    parsed_pieces(split_commas(s))
}

/// The ids of the tasks at the given 1-based positions, in the order of the
/// positions; a position outside `1..=tasks.len()` selects nothing.
pub open spec fn ids_at_positions(positions: Seq<i32>, tasks: Seq<Task>) -> Seq<i32>
    decreases positions.len(),
{
    if positions.len() == 0 {
        Seq::empty()
    } else {
        let rest = ids_at_positions(positions.drop_last(), tasks);
        let k = positions.last() as int;
        if 1 <= k <= tasks.len() {
            rest.push(tasks[k - 1]@.id)
        } else {
            rest
        }
    }
}

proof fn lemma_split_commas_nonempty(s: Seq<char>)
    ensures
        split_commas(s).len() >= 1,
    decreases s.len(),
{
    if s.len() > 0 {
        lemma_split_commas_nonempty(s.drop_last());
    }
}

/// Reads the numbers of a comma-separated list, as
/// `split(',').filter_map(|p| p.parse().ok())` does.
pub fn parse_indexes(text: &str) -> (indexes: Vec<i32>)
    ensures
        indexes@ == indexes_of(text@),
{
    let n = text.unicode_len();
    let mut out: Vec<i32> = Vec::new();
    let mut piece: Vec<char> = Vec::new();
    let ghost mut done: Seq<Seq<char>> = Seq::empty();
    assert(text@.take(0) =~= Seq::<char>::empty());
    assert(done.push(piece@) =~= seq![Seq::<char>::empty()]);
    for i in 0..n
        invariant
            n == text@.len(),
            split_commas(text@.take(i as int)) == done.push(piece@),
            out@ == parsed_pieces(done),
    {
        let c = text.get_char(i);
        assert(text@.take(i + 1).drop_last() =~= text@.take(i as int));
        assert(text@.take(i + 1).last() == c);
        if c == ',' {
            let v = parse_i32_chars(&piece);
            assert(done.push(piece@).drop_last() =~= done);
            match v {
                Some(x) => {
                    out.push(x);
                },
                None => {},
            }
            proof {
                done = done.push(piece@);
            }
            piece = Vec::new();
            assert(done.push(piece@) =~= split_commas(text@.take(i + 1)));
        } else {
            let ghost before = piece@;
            piece.push(c);
            assert(done.push(piece@) =~= done.push(before).update(
                done.push(before).len() - 1,
                done.push(before).last().push(c),
            ));
        }
    }
    assert(text@.take(n as int) =~= text@);
    let v = parse_i32_chars(&piece);
    assert(done.push(piece@).drop_last() =~= done);
    match v {
        Some(x) => {
            out.push(x);
        },
        None => {},
    }
    out
}

/// Picks the ids of the tasks at the given 1-based positions.
pub fn ids_from_positions(positions: &Vec<i32>, tasks: &Vec<Task>) -> (ids: Vec<i32>)
    ensures
        ids@ == ids_at_positions(positions@, tasks@),
{
    let mut ids: Vec<i32> = Vec::new();
    let count = tasks.len();
    for i in 0..positions.len()
        invariant
            count == tasks@.len(),
            ids@ == ids_at_positions(positions@.take(i as int), tasks@),
    {
        let k = positions[i];
        assert(positions@.take(i + 1).drop_last() =~= positions@.take(i as int));
        if 1 <= k && (k as usize) <= count {
            let task = &tasks[(k - 1) as usize];
            ids.push(task.id());
        }
    }
    assert(positions@.take(positions@.len() as int) =~= positions@);
    ids
}

/// Whether some task of the list has this id.
pub open spec fn has_task_id(tasks: Seq<Task>, id: i32) -> bool {
    exists|i: int| 0 <= i < tasks.len() && #[trigger] tasks[i]@.id == id
}

/// Positions only ever select tasks of the list: each id picked is the id of
/// a listed task, and there are no more ids than positions.
pub proof fn law_positions_pick_listed_tasks(positions: Seq<i32>, tasks: Seq<Task>)
    ensures
        ids_at_positions(positions, tasks).len() <= positions.len(),
        forall|j: int|
            0 <= j < ids_at_positions(positions, tasks).len() ==> has_task_id(
                tasks,
                #[trigger] ids_at_positions(positions, tasks)[j],
            ),
    decreases positions.len(),
{
    if positions.len() > 0 {
        law_positions_pick_listed_tasks(positions.drop_last(), tasks);
        let rest = ids_at_positions(positions.drop_last(), tasks);
        let k = positions.last() as int;
        if 1 <= k <= tasks.len() {
            let all = rest.push(tasks[k - 1]@.id);
            assert forall|j: int| 0 <= j < all.len() implies has_task_id(tasks, #[trigger] all[j]) by {
                if j < rest.len() {
                    assert(all[j] == rest[j]);
                } else {
                    assert(tasks[k - 1]@.id == all[j]);
                }
            }
        }
    }
}

/// The list text of some numbers: their decimal texts joined by commas.
pub open spec fn join_decimal(ns: Seq<i32>) -> Seq<char>
    decreases ns.len(),
{
    if ns.len() == 0 {
        Seq::empty()
    } else if ns.len() == 1 {
        decimal(ns[0] as int)
    } else {
        join_decimal(ns.drop_last()) + seq![','] + decimal(ns.last() as int)
    }
}

proof fn lemma_digits_of(m: nat)
    ensures
        all_digits(digits_of(m)),
        digits_value(digits_of(m)) == m,
        digits_of(m).len() >= 1,
    decreases m,
{
    if m < 10 {
        let d = digit_char(m as int);
        assert(d as int == 48 + m);
        assert(seq![d].drop_last() =~= Seq::<char>::empty());
        assert(seq![d].last() == d);
        assert(digits_value(Seq::<char>::empty()) == 0);
        assert(digits_value(seq![d]) == 0 * 10 + digit_value(d));
    } else {
        lemma_digits_of(m / 10);
        let front = digits_of(m / 10);
        let d = digit_char((m % 10) as int);
        assert(d as int == 48 + m % 10);
        assert(front.push(d).drop_last() =~= front);
        assert(front.push(d).last() == d);
        assert(m == (m / 10) * 10 + m % 10) by (nonlinear_arith);
        assert(digits_value(front.push(d)) == digits_value(front) * 10 + digit_value(d));
        assert forall|k: int| 0 <= k < front.push(d).len() implies is_digit(
            #[trigger] front.push(d)[k],
        ) by {
            if k < front.len() {
                assert(front.push(d)[k] == front[k]);
            }
        }
    }
}

proof fn lemma_no_comma_in_decimal(n: i32)
    ensures
        forall|k: int| 0 <= k < decimal(n as int).len() ==> #[trigger] decimal(n as int)[k] != ',',
        decimal(n as int).len() >= 1,
{
    let m: nat = if n < 0 {
        (-n) as nat
    } else {
        n as nat
    };
    lemma_digits_of(m);
    assert forall|k: int| 0 <= k < decimal(n as int).len() implies #[trigger] decimal(
        n as int,
    )[k] != ',' by {
        if n < 0 {
            if k > 0 {
                assert(decimal(n as int)[k] == digits_of(m)[k - 1]);
                assert(is_digit(digits_of(m)[k - 1]));
            }
        } else {
            assert(is_digit(digits_of(m)[k]));
        }
    }
}

proof fn lemma_parse_decimal(n: i32)
    ensures
        parse_i32_spec(decimal(n as int)) == Some(n),
{
    let s = decimal(n as int);
    if n < 0 {
        let m = (-n) as nat;
        lemma_digits_of(m);
        assert(s.drop_first() =~= digits_of(m));
    } else {
        let m = n as nat;
        lemma_digits_of(m);
        assert(is_digit(s[0]));
    }
}

/// The decimal text of a number reads back as that number, also with a `+`
/// before it when it is not negative; the text is a `-` for negative numbers
/// and then only digits, the first of which is `0` only for zero.  An empty
/// text, or a sign alone, reads as nothing.
pub proof fn law_decimal_reads_back(n: i32)
    ensures
        parse_i32_spec(decimal(n as int)) == Some(n),
        n >= 0 ==> parse_i32_spec(seq!['+'] + decimal(n as int)) == Some(n),
        n < 0 ==> decimal(n as int)[0] == '-' && all_digits(decimal(n as int).drop_first()),
        n >= 0 ==> all_digits(decimal(n as int)),
        ({
            let ds = if n < 0 {
                decimal(n as int).drop_first()
            } else {
                decimal(n as int)
            };
            &&& ds.len() >= 1
            &&& (ds[0] == '0' ==> n == 0)
            &&& digits_value(ds) == (if n < 0 {
                -(n as int)
            } else {
                n as int
            })
        }),
        parse_i32_spec(Seq::empty()) is None,
        parse_i32_spec(seq!['-']) is None,
        parse_i32_spec(seq!['+']) is None,
{
    lemma_parse_decimal(n);
    let m: nat = if n < 0 {
        (-n) as nat
    } else {
        n as nat
    };
    lemma_digits_of(m);
    lemma_leading_digit(m);
    let d = decimal(n as int);
    if n < 0 {
        assert(d.drop_first() =~= digits_of(m));
    } else {
        let p = seq!['+'] + d;
        assert(p.drop_first() =~= d);
    }
    assert(seq!['-'].drop_first().len() == 0);
    assert(seq!['+'].drop_first().len() == 0);
}

/// A text with a character that is neither a digit nor a leading sign does
/// not read as a number.
pub proof fn law_parse_refuses_other_characters(s: Seq<char>, i: int)
    requires
        0 <= i < s.len(),
        !is_digit(s[i]),
        i > 0 || (s[0] != '-' && s[0] != '+'),
    ensures
        parse_i32_spec(s) is None,
{
    if s[0] == '-' || s[0] == '+' {
        assert(s.drop_first()[i - 1] == s[i]);
    }
}

/// Reading a list joined at a comma gives the numbers of the first part then
/// those of the second, so entries are read one by one, in order.
pub proof fn law_indexes_of_joined(x: Seq<char>, y: Seq<char>)
    ensures
        indexes_of(x + seq![','] + y) == indexes_of(x) + indexes_of(y),
{
    lemma_split_joined(x, y);
    lemma_parsed_pieces_append(split_commas(x), split_commas(y));
}

/// A list with one entry reads as that entry's number, or as nothing when
/// the entry is not a number.
pub proof fn law_indexes_of_one_entry(y: Seq<char>)
    requires
        forall|k: int| 0 <= k < y.len() ==> #[trigger] y[k] != ',',
    ensures
        indexes_of(y) == (match parse_i32_spec(y) {
            Some(v) => seq![v],
            None => Seq::<i32>::empty(),
        }),
{
    lemma_split_no_comma(y);
    assert(seq![y].drop_last() =~= Seq::<Seq<char>>::empty());
    assert(seq![y].last() == y);
    assert(parsed_pieces(Seq::<Seq<char>>::empty()) =~= Seq::<i32>::empty());
    match parse_i32_spec(y) {
        Some(v) => {
            assert(Seq::<i32>::empty().push(v) =~= seq![v]);
        },
        None => {},
    }
}

/// One more position selects the task at that 1-based place of the list,
/// after those already selected, or nothing when it is outside the list.
pub proof fn law_positions_select_by_place(positions: Seq<i32>, k: i32, tasks: Seq<Task>)
    ensures
        1 <= k <= tasks.len() ==> ids_at_positions(positions.push(k), tasks) == ids_at_positions(
            positions,
            tasks,
        ).push(tasks[k - 1]@.id),
        !(1 <= k <= tasks.len()) ==> ids_at_positions(positions.push(k), tasks)
            == ids_at_positions(positions, tasks),
        ids_at_positions(Seq::empty(), tasks) == Seq::<i32>::empty(),
{
    assert(positions.push(k).drop_last() =~= positions);
}

proof fn lemma_leading_digit(m: nat)
    ensures
        digits_of(m)[0] == '0' ==> m == 0,
    decreases m,
{
    if m >= 10 {
        lemma_leading_digit(m / 10);
        lemma_digits_of(m / 10);
        assert(digits_of(m)[0] == digits_of(m / 10)[0]);
    } else {
        assert(digit_char(m as int) as int == 48 + m);
    }
}

proof fn lemma_split_no_comma(y: Seq<char>)
    requires
        forall|k: int| 0 <= k < y.len() ==> #[trigger] y[k] != ',',
    ensures
        split_commas(y) == seq![y],
    decreases y.len(),
{
    if y.len() > 0 {
        lemma_split_no_comma(y.drop_last());
        assert(y.drop_last().push(y.last()) =~= y);
        assert(seq![y.drop_last()].update(0, y.drop_last().push(y.last())) =~= seq![y]);
    } else {
        assert(y =~= Seq::<char>::empty());
    }
}

proof fn lemma_split_joined(x: Seq<char>, y: Seq<char>)
    ensures
        split_commas(x + seq![','] + y) == split_commas(x) + split_commas(y),
    decreases y.len(),
{
    let xc = x + seq![','];
    if y.len() == 0 {
        assert(xc + y =~= xc);
        assert(xc.drop_last() =~= x);
        assert(split_commas(x).push(Seq::empty()) =~= split_commas(x) + seq![Seq::<char>::empty()]);
    } else {
        lemma_split_joined(x, y.drop_last());
        lemma_split_commas_nonempty(y.drop_last());
        lemma_split_commas_nonempty(x);
        assert((xc + y).drop_last() =~= xc + y.drop_last());
        assert((xc + y).last() == y.last());
        let a = split_commas(x);
        let b = split_commas(y.drop_last());
        if y.last() == ',' {
            assert((a + b).push(Seq::empty()) =~= a + b.push(Seq::empty()));
        } else {
            assert((a + b).update((a + b).len() - 1, (a + b).last().push(y.last())) =~= a + b.update(
                b.len() - 1,
                b.last().push(y.last()),
            ));
        }
    }
}

proof fn lemma_parsed_pieces_append(a: Seq<Seq<char>>, b: Seq<Seq<char>>)
    ensures
        parsed_pieces(a + b) == parsed_pieces(a) + parsed_pieces(b),
    decreases b.len(),
{
    if b.len() == 0 {
        assert(a + b =~= a);
        assert(parsed_pieces(a) + Seq::<i32>::empty() =~= parsed_pieces(a));
    } else {
        lemma_parsed_pieces_append(a, b.drop_last());
        assert((a + b).drop_last() =~= a + b.drop_last());
        assert((a + b).last() == b.last());
        let pa = parsed_pieces(a);
        let pb = parsed_pieces(b.drop_last());
        match parse_i32_spec(b.last()) {
            Some(v) => {
                assert((pa + pb).push(v) =~= pa + pb.push(v));
            },
            None => {},
        }
    }
}

/// Writing numbers as a comma-separated list of decimals and reading the
/// list back gives the same numbers, in the same order.
pub proof fn law_indexes_read_back(ns: Seq<i32>)
    ensures
        indexes_of(join_decimal(ns)) == ns,
    decreases ns.len(),
{
    if ns.len() == 0 {
        assert(split_commas(Seq::<char>::empty()) == seq![Seq::<char>::empty()]);
        let pieces = seq![Seq::<char>::empty()];
        assert(pieces.drop_last() =~= Seq::<Seq<char>>::empty());
        assert(pieces.last() == Seq::<char>::empty());
        assert(parse_i32_spec(Seq::<char>::empty()) is None);
        assert(parsed_pieces(Seq::<Seq<char>>::empty()) =~= Seq::<i32>::empty());
        assert(ns =~= Seq::<i32>::empty());
        assert(join_decimal(ns) == Seq::<char>::empty());
        assert(indexes_of(join_decimal(ns)) == ns);
    } else if ns.len() == 1 {
        let d = decimal(ns[0] as int);
        lemma_no_comma_in_decimal(ns[0]);
        lemma_split_no_comma(d);
        lemma_parse_decimal(ns[0]);
        assert(seq![d].drop_last() =~= Seq::<Seq<char>>::empty());
        assert(seq![d].last() == d);
        assert(parsed_pieces(Seq::<Seq<char>>::empty()) =~= Seq::<i32>::empty());
        assert(Seq::<i32>::empty().push(ns[0]) =~= ns);
        assert(indexes_of(join_decimal(ns)) == ns);
    } else {
        let front = ns.drop_last();
        let n = ns.last();
        let d = decimal(n as int);
        law_indexes_read_back(front);
        lemma_split_joined(join_decimal(front), d);
        lemma_no_comma_in_decimal(n);
        lemma_split_no_comma(d);
        lemma_parse_decimal(n);
        lemma_parsed_pieces_append(split_commas(join_decimal(front)), seq![d]);
        assert(seq![d].drop_last() =~= Seq::<Seq<char>>::empty());
        assert(seq![d].last() == d);
        assert(parsed_pieces(Seq::<Seq<char>>::empty()) =~= Seq::<i32>::empty());
        assert(Seq::<i32>::empty().push(n) =~= seq![n]);
        assert(parsed_pieces(seq![d]) =~= seq![n]);
        assert(front + seq![n] =~= ns);
        assert(join_decimal(ns) == join_decimal(front) + seq![','] + d);
        assert(indexes_of(join_decimal(ns)) == ns);
    }
}

} // verus!
