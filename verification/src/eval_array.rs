//! Evaluating array literals.

use vstd::prelude::*;

verus! {

/// An element of an array literal that is not a hole.
pub struct ExprOrSpread<E> {
    /// Whether the element is spread.
    pub spread: bool,
    pub expr: E,
}

/// An array literal. A hole is an element that is `None`. The range is that of the
/// literal in the source text.
pub struct ArrayLit<E> {
    pub real_lo: u32,
    pub real_hi: u32,
    pub elems: Vec<Option<ExprOrSpread<E>>>,
}

/// The value that an expression was evaluated to.
pub trait EvaluatedExpression: Sized {
    /// A value of which only the range in the source text is known.
    fn with_range(lo: u32, hi: u32) -> Self;

    /// The value, made an array of items.
    fn set_items(self, items: Vec<Self>) -> Self;
}

/// A scanner that evaluates expressions of type `E` to values of type `V`.
pub trait ExpressionEvaluator<E, V>: Sized {
    /// Evaluates an expression: gives the scanner after it, and the value.
    fn evaluate_expression(self, expr: &E) -> (Self, V);
}

/// The element is neither a hole nor spread.
pub open spec fn is_plain<E>(elem: Option<ExprOrSpread<E>>) -> bool {
    elem matches Some(e) && !e.spread
}

/// How many elements come before the first hole or spread.
pub open spec fn plain_prefix<E>(elems: Seq<Option<ExprOrSpread<E>>>) -> nat
    decreases elems.len(),
{
    if elems.len() == 0 || !is_plain(elems[0]) {
        0
    } else {
        1 + plain_prefix(elems.drop_first())
    }
}

/// The scanner, evaluating elements from first to last, can go from `from` to `to` and
/// give these items.
pub open spec fn evaluation_chain<S: ExpressionEvaluator<E, V>, E, V>(
    elems: Seq<Option<ExprOrSpread<E>>>,
    from: S,
    to: S,
    items: Seq<V>,
) -> bool
    decreases elems.len(),
{
    &&& items.len() == elems.len()
    &&& if elems.len() == 0 {
        from == to
    } else {
        exists|mid: S|
            {
                &&& evaluation_chain(elems.drop_last(), from, mid, items.drop_last())
                &&& #[trigger] evaluation_step(elems.last()->0.expr, mid, to, items.last())
            }
    }
}

/// The scanner, evaluating an expression, can go from `from` to `to` and give this item.
pub open spec fn evaluation_step<S: ExpressionEvaluator<E, V>, E, V>(
    expr: E,
    from: S,
    to: S,
    item: V,
) -> bool {
    call_ensures(S::evaluate_expression, (from, &expr), (to, item))
}

/// The scanner, evaluating the elements before the first hole or spread, can go from
/// `from` to `to` and give these items.
pub open spec fn elements_evaluated<S: ExpressionEvaluator<E, V>, E, V>(
    expr: ArrayLit<E>,
    from: S,
    to: S,
    items: Vec<V>,
) -> bool {
    evaluation_chain(expr.elems@.take(plain_prefix(expr.elems@) as int), from, to, items@)
}

/// The value is an array of these items with a literal's range.
pub open spec fn is_array_of<V: EvaluatedExpression>(
    lo: u32,
    hi: u32,
    items: Vec<V>,
    value: V,
) -> bool {
    exists|unknown: V| #[trigger]
        call_ensures(V::with_range, (lo, hi), unknown) && call_ensures(
            V::set_items,
            (unknown, items),
            value,
        )
}

/// The scanner, evaluating an array literal, can go from `from` to `to`, and the value,
/// if there is one, is an array of the items that it gave on the way.
pub open spec fn array_evaluated<S: ExpressionEvaluator<E, V>, E, V: EvaluatedExpression>(
    expr: ArrayLit<E>,
    from: S,
    to: S,
    value: Option<V>,
) -> bool {
    exists|items: Vec<V>| #[trigger]
        elements_evaluated(expr, from, to, items) && (match value {
            Some(value) => is_array_of(expr.real_lo, expr.real_hi, items, value),
            None => true,
        })
}

/// The prefix of plain elements: it ends at the first element that is not plain, if
/// there is one.
pub proof fn plain_prefix_is<E>(elems: Seq<Option<ExprOrSpread<E>>>, n: nat)
    requires
        n <= elems.len(),
        forall|i: int| 0 <= i < n ==> is_plain(#[trigger] elems[i]),
        n < elems.len() ==> !is_plain(elems[n as int]),
    ensures
        plain_prefix(elems) == n,
    decreases n,
{
    if n > 0 {
        let rest = elems.drop_first();
        assert(is_plain(elems[0]));
        assert forall|i: int| 0 <= i < n - 1 implies is_plain(#[trigger] rest[i]) by {
            assert(rest[i] == elems[i + 1]);
        }
        if n < elems.len() {
            assert(rest[n - 1] == elems[n as int]);
        }
        plain_prefix_is(rest, (n - 1) as nat);
    }
}

/// Evaluates an array literal. Its elements are evaluated from first to last, up to the
/// first one that is a hole or spread. With such an element the value is not known;
/// without one it is an array of the elements' values.
pub fn eval_array_expression<S: ExpressionEvaluator<E, V>, E, V: EvaluatedExpression>(
    scanner: S,
    expr: &ArrayLit<E>,
) -> (r: (S, Option<V>))
    ensures
        array_evaluated(*expr, scanner, r.0, r.1),
        r.1 is Some <==> plain_prefix(expr.elems@) == expr.elems@.len(),
        r.1 is Some <==> forall|i: int|
            0 <= i < expr.elems@.len() ==> (#[trigger] expr.elems@[i]) is Some
                && !expr.elems@[i]->0.spread,
{
    proof {
        known_iff_all_plain(expr.elems@);
    }
    let ghost start = scanner;
    let ghost elems = expr.elems@;
    let mut current = scanner;
    let mut items: Vec<V> = Vec::new();
    let n: usize = expr.elems.len();
    for i in 0..n
        invariant
            n == elems.len(),
            start == scanner,
            elems == expr.elems@,
            forall|j: int| 0 <= j < i ==> is_plain(#[trigger] elems[j]),
            evaluation_chain(elems.take(i as int), start, current, items@),
    {
        match &expr.elems[i] {
            Some(elem) if !elem.spread => {
                let ghost before = current;
                let ghost old_items = items@;
                let (after, item) = current.evaluate_expression(&elem.expr);
                current = after;
                items.push(item);
                proof {
                    let more = elems.take(i + 1);
                    assert(more.drop_last() =~= elems.take(i as int));
                    assert(items@.drop_last() =~= old_items);
                    assert(evaluation_step(more.last()->0.expr, before, current, items@.last()));
                }
            },
            _ => {
                proof {
                    plain_prefix_is(elems, i as nat);
                    assert(elements_evaluated(*expr, start, current, items));
                }
                return (current, None);
            },
        }
    }
    proof {
        plain_prefix_is(elems, n as nat);
        assert(elements_evaluated(*expr, start, current, items));
    }
    let ghost all = items;
    let res = V::with_range(expr.real_lo, expr.real_hi);
    let value = res.set_items(items);
    assert(is_array_of(expr.real_lo, expr.real_hi, all, value));
    (current, Some(value))
}

/// An array literal is known exactly if each of its elements is neither a hole nor
/// spread.
pub proof fn known_iff_all_plain<E>(elems: Seq<Option<ExprOrSpread<E>>>)
    ensures
        plain_prefix(elems) <= elems.len(),
        plain_prefix(elems) == elems.len() <==> forall|i: int|
            0 <= i < elems.len() ==> is_plain(#[trigger] elems[i]),
    decreases elems.len(),
{
    if elems.len() > 0 {
        let rest = elems.drop_first();
        known_iff_all_plain(rest);
        if is_plain(elems[0]) {
            if forall|i: int| 0 <= i < rest.len() ==> is_plain(#[trigger] rest[i]) {
                assert forall|i: int| 0 <= i < elems.len() implies is_plain(#[trigger] elems[i]) by {
                    if i > 0 {
                        assert(rest[i - 1] == elems[i]);
                    }
                }
            } else {
                let i = choose|i: int| 0 <= i < rest.len() && !is_plain(#[trigger] rest[i]);
                assert(rest[i] == elems[i + 1]);
            }
        }
    }
}

/// Elements are evaluated one by one, from first to last, each by the scanner that the one
/// before it left, and the items are their values. The result holds the scanners on the
/// way.
pub proof fn elements_evaluated_in_turn<S: ExpressionEvaluator<E, V>, E, V>(
    elems: Seq<Option<ExprOrSpread<E>>>,
    from: S,
    to: S,
    items: Seq<V>,
) -> (states: Seq<S>)
    requires
        evaluation_chain(elems, from, to, items),
    ensures
        items.len() == elems.len(),
        states.len() == elems.len() + 1,
        states[0] == from,
        states[elems.len() as int] == to,
        forall|i: int|
            0 <= i < elems.len() ==> call_ensures(
                S::evaluate_expression,
                (states[i], &(#[trigger] elems[i])->0.expr),
                (states[i + 1], items[i]),
            ),
    decreases elems.len(),
{
    if elems.len() == 0 {
        seq![from]
    } else {
        let less = elems.drop_last();
        let mid = choose|mid: S|
            {
                &&& evaluation_chain(less, from, mid, items.drop_last())
                &&& #[trigger] evaluation_step(elems.last()->0.expr, mid, to, items.last())
            };
        let before = elements_evaluated_in_turn(less, from, mid, items.drop_last());
        let states = before.push(to);
        assert forall|i: int| 0 <= i < elems.len() implies call_ensures(
            S::evaluate_expression,
            (states[i], &(#[trigger] elems[i])->0.expr),
            (states[i + 1], items[i]),
        ) by {
            if i < less.len() {
                assert(less[i] == elems[i]);
            }
        }
        states
    }
}

/// Evaluating an array literal evaluates its elements in turn until one is a hole or is
/// spread, and no other. Without such an element all are evaluated, and the value has the
/// literal's range and the elements' values as its items. The result holds the scanners on
/// the way and the items.
pub proof fn array_literal_evaluated_up_to_a_gap<
    S: ExpressionEvaluator<E, V>,
    E,
    V: EvaluatedExpression,
>(expr: ArrayLit<E>, from: S, to: S, value: Option<V>) -> (steps: (Seq<S>, Vec<V>))
    requires
        array_evaluated(expr, from, to, value),
    ensures
        ({
            let (states, items) = steps;
            let elems = expr.elems@;
            let n = items@.len();
            &&& n <= elems.len()
            &&& n < elems.len() ==> elems[n as int] is None || elems[n as int]->0.spread
            &&& states.len() == n + 1
            &&& states[0] == from
            &&& states[n as int] == to
            &&& forall|i: int|
                0 <= i < n ==> {
                    &&& #[trigger] elems[i] is Some && !elems[i]->0.spread
                    &&& call_ensures(
                        S::evaluate_expression,
                        (states[i], &elems[i]->0.expr),
                        (states[i + 1], items@[i]),
                    )
                }
            &&& value matches Some(value) ==> exists|unknown: V|
                {
                    &&& #[trigger] call_ensures(
                        V::with_range,
                        (expr.real_lo, expr.real_hi),
                        unknown,
                    )
                    &&& call_ensures(V::set_items, (unknown, items), value)
                }
        }),
{
    let elems = expr.elems@;
    let items = choose|items: Vec<V>| #[trigger]
        elements_evaluated(expr, from, to, items) && (match value {
            Some(value) => is_array_of(expr.real_lo, expr.real_hi, items, value),
            None => true,
        });
    plain_prefix_ends(elems);
    let n = plain_prefix(elems);
    let prefix = elems.take(n as int);
    let states = elements_evaluated_in_turn(prefix, from, to, items@);
    assert forall|i: int| 0 <= i < n implies {
        &&& #[trigger] elems[i] is Some && !elems[i]->0.spread
        &&& call_ensures(
            S::evaluate_expression,
            (states[i], &elems[i]->0.expr),
            (states[i + 1], items@[i]),
        )
    } by {
        assert(is_plain(elems[i]));
        assert(prefix[i] == elems[i]);
    }
    (states, items)
}

/// The elements before the first hole or spread are plain, and it is not.
proof fn plain_prefix_ends<E>(elems: Seq<Option<ExprOrSpread<E>>>)
    ensures
        plain_prefix(elems) <= elems.len(),
        forall|i: int| 0 <= i < plain_prefix(elems) ==> is_plain(#[trigger] elems[i]),
        plain_prefix(elems) < elems.len() ==> !is_plain(elems[plain_prefix(elems) as int]),
    decreases elems.len(),
{
    if elems.len() > 0 && is_plain(elems[0]) {
        let rest = elems.drop_first();
        plain_prefix_ends(rest);
        assert forall|i: int| 0 <= i < plain_prefix(elems) implies is_plain(
            #[trigger] elems[i],
        ) by {
            if i > 0 {
                assert(is_plain(rest[i - 1]));
            }
        }
        if plain_prefix(elems) < elems.len() {
            assert(rest[plain_prefix(rest) as int] == elems[plain_prefix(elems) as int]);
        }
    }
}

} // verus!
