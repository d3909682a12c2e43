use rspack_plugin_javascript::eval_array::{
    eval_array_expression, ArrayLit, EvaluatedExpression, ExprOrSpread, ExpressionEvaluator,
};

#[derive(Debug, PartialEq)]
enum Value {
    Number(i32),
    Unknown(u32, u32),
    Array(u32, u32, Vec<Value>),
}

impl EvaluatedExpression for Value {
    fn with_range(lo: u32, hi: u32) -> Self {
        Value::Unknown(lo, hi)
    }

    fn set_items(self, items: Vec<Self>) -> Self {
        match self {
            Value::Unknown(lo, hi) => Value::Array(lo, hi, items),
            other => other,
        }
    }
}

/// Doubles numbers and remembers what it was asked for.
struct Scanner {
    seen: Vec<i32>,
}

impl ExpressionEvaluator<i32, Value> for Scanner {
    fn evaluate_expression(mut self, expr: &i32) -> (Self, Value) {
        self.seen.push(*expr);
        (self, Value::Number(expr * 2))
    }
}

fn plain(n: i32) -> Option<ExprOrSpread<i32>> {
    Some(ExprOrSpread { spread: false, expr: n })
}

fn eval(elems: Vec<Option<ExprOrSpread<i32>>>) -> (Vec<i32>, Option<Value>) {
    let literal = ArrayLit { real_lo: 3, real_hi: 12, elems };
    let (scanner, value) = eval_array_expression(Scanner { seen: vec![] }, &literal);
    (scanner.seen, value)
}

#[test]
fn plain_elements_make_an_array_in_order() {
    let (seen, value) = eval(vec![plain(1), plain(5), plain(2)]);
    assert_eq!(seen, vec![1, 5, 2]);
    assert_eq!(
        value,
        Some(Value::Array(
            3,
            12,
            vec![Value::Number(2), Value::Number(10), Value::Number(4)]
        ))
    );
}

#[test]
fn the_empty_literal_is_an_empty_array() {
    let (seen, value) = eval(vec![]);
    assert!(seen.is_empty());
    assert_eq!(value, Some(Value::Array(3, 12, vec![])));
}

#[test]
fn a_hole_ends_the_evaluation() {
    let (seen, value) = eval(vec![plain(1), None, plain(2)]);
    assert_eq!(seen, vec![1]);
    assert_eq!(value, None);
}

#[test]
fn a_spread_element_ends_the_evaluation() {
    let (seen, value) = eval(vec![
        plain(4),
        plain(6),
        Some(ExprOrSpread { spread: true, expr: 9 }),
        plain(2),
    ]);
    assert_eq!(seen, vec![4, 6]);
    assert_eq!(value, None);
}
