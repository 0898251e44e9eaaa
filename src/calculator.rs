use vstd::prelude::*;
use crate::decimal::{decimal_int, decimal_nat, push_signed, push_unsigned};

verus! {

/// The three arithmetic operations the calculator knows.
#[derive(Clone, Copy, Debug, PartialEq, Eq, Structural)]
pub enum OperationType {
    Addition,
    Subtraction,
    Multiplication,
}

/// The exact mathematical result of an operation.
pub open spec fn exact_result(t: OperationType, x: int, y: int) -> int {
    match t {
        OperationType::Addition => x + y,
        OperationType::Subtraction => x - y,
        OperationType::Multiplication => x * y,
    }
}

/// The result as an `i64`, or `None` when it does not fit.
pub open spec fn checked_result(t: OperationType, x: i64, y: i64) -> Option<i64> {
    let v = exact_result(t, x as int, y as int);
    if i64::MIN <= v && v <= i64::MAX {
        Some(v as i64)
    } else {
        None
    }
}

/// The text of an operation's sign.
pub open spec fn sign_text(t: OperationType) -> Seq<char> {
    match t {
        OperationType::Addition => seq!['+'],
        OperationType::Subtraction => seq!['-'],
        OperationType::Multiplication => seq!['*'],
    }
}

impl OperationType {
    pub fn get_sign(&self) -> (r: &str)
        ensures
            r@ == sign_text(*self),
    {
        proof {
            reveal_strlit("+");
            reveal_strlit("-");
            reveal_strlit("*");
        }
        match self {
            OperationType::Addition => "+",
            OperationType::Subtraction => "-",
            OperationType::Multiplication => "*",
        }
    }

    pub fn perform(&self, x: i64, y: i64) -> (r: Option<i64>)
        ensures
            r == checked_result(*self, x, y),
    {
        match self {
            OperationType::Addition => x.checked_add(y),
            OperationType::Subtraction => x.checked_sub(y),
            OperationType::Multiplication => x.checked_mul(y),
        }
    }
}

/// One recorded operation: its two operands and its kind.
#[derive(Clone, Copy, Debug, PartialEq, Eq, Structural)]
pub struct Operation {
    pub first_num: i64,
    pub second_num: i64,
    pub operation_type: OperationType,
}

impl Operation {
    pub fn new(first_num: i64, second_num: i64, operation_type: OperationType) -> (r: Self)
        ensures
            r == (Operation { first_num, second_num, operation_type }),
    {
        Self { first_num, second_num, operation_type }
    }
}

/// The history line of the operation at `index`: "index: x sign y = result\n".
pub open spec fn history_line(index: nat, op: Operation, result: i64) -> Seq<char> {
    decimal_nat(index) + seq![':', ' '] + decimal_int(op.first_num as int) + seq![' ']
        + sign_text(op.operation_type) + seq![' '] + decimal_int(op.second_num as int)
        + seq![' ', '=', ' '] + decimal_int(result as int) + seq!['\n']
}

/// The text of the first `n` entries of a history; an entry whose result does not
/// fit in an `i64` contributes nothing, while keeping its index.
pub open spec fn history_text(h: Seq<Operation>, n: nat) -> Seq<char>
    recommends
        n <= h.len(),
    decreases n,
{
    if n == 0 {
        Seq::empty()
    } else {
        let op = h[n - 1];
        let prev = history_text(h, (n - 1) as nat);
        match checked_result(op.operation_type, op.first_num, op.second_num) {
            Some(v) => prev + history_line((n - 1) as nat, op, v),
            None => prev,
        }
    }
}

/// Checked integer arithmetic that records every successful operation.
pub struct Calculator {
    pub history: Vec<Operation>,
}

impl Calculator {
    pub fn new() -> (r: Self)
        ensures
            r.history@ == Seq::<Operation>::empty(),
    {
        Self { history: Vec::new() }
    }

    fn record(&mut self, x: i64, y: i64, t: OperationType) -> (r: Option<i64>)
        ensures
            r == checked_result(t, x, y),
            r is Some ==> final(self).history@ == old(self).history@.push((Operation { first_num: x, second_num: y, operation_type: t })),
            r is None ==> final(self).history@ == old(self).history@,
    {
        match t.perform(x, y) {
            Some(v) => {
                self.history.push((Operation { first_num: x, second_num: y, operation_type: t }));
                Some(v)
            },
            None => None,
        }
    }

    pub fn addition(&mut self, x: i64, y: i64) -> (r: Option<i64>)
        ensures
            r == checked_result(OperationType::Addition, x, y),
            r is Some ==> final(self).history@ == old(self).history@.push(
                (Operation { first_num: x, second_num: y, operation_type: OperationType::Addition }),
            ),
            r is None ==> final(self).history@ == old(self).history@,
    {
        self.record(x, y, OperationType::Addition)
    }

    pub fn subtraction(&mut self, x: i64, y: i64) -> (r: Option<i64>)
        ensures
            r == checked_result(OperationType::Subtraction, x, y),
            r is Some ==> final(self).history@ == old(self).history@.push(
                (Operation { first_num: x, second_num: y, operation_type: OperationType::Subtraction }),
            ),
            r is None ==> final(self).history@ == old(self).history@,
    {
        self.record(x, y, OperationType::Subtraction)
    }

    pub fn multiplication(&mut self, x: i64, y: i64) -> (r: Option<i64>)
        ensures
            r == checked_result(OperationType::Multiplication, x, y),
            r is Some ==> final(self).history@ == old(self).history@.push(
                (Operation { first_num: x, second_num: y, operation_type: OperationType::Multiplication }),
            ),
            r is None ==> final(self).history@ == old(self).history@,
    {
        self.record(x, y, OperationType::Multiplication)
    }

    /// One line per operation whose result fits, each prefixed by its index.
    pub fn show_history(&self) -> (r: String)
        ensures
            r@ == history_text(self.history@, self.history@.len()),
    {
        let mut text = String::new();
        let n = self.history.len();
        let mut i: usize = 0;
        while i < n
            invariant
                n == self.history@.len(),
                i <= n,
                text@ == history_text(self.history@, i as nat),
            decreases n - i,
        {
            let op = self.history[i];
            match op.operation_type.perform(op.first_num, op.second_num) {
                Some(v) => {
                    push_unsigned(&mut text, i as u64);
                    text.append(": ");
                    push_signed(&mut text, op.first_num);
                    text.append(" ");
                    text.append(op.operation_type.get_sign());
                    text.append(" ");
                    push_signed(&mut text, op.second_num);
                    text.append(" = ");
                    push_signed(&mut text, v);
                    text.append("\n");
                    proof {
                        reveal_strlit(": ");
                        reveal_strlit(" ");
                        reveal_strlit(" = ");
                        reveal_strlit("\n");
                    }
                    assert(text@ =~= history_text(self.history@, (i + 1) as nat));
                },
                None => {},
            }
            i = i + 1;
        }
        text
    }

    /// Performs again the operation at `operation_index` and records it once more.
    pub fn repeat(&mut self, operation_index: usize) -> (r: Option<i64>)
        ensures
            operation_index >= old(self).history@.len() ==> r is None,
            operation_index < old(self).history@.len() ==> {
                let op = old(self).history@[operation_index as int];
                r == checked_result(op.operation_type, op.first_num, op.second_num)
            },
            r is Some ==> final(self).history@ == old(self).history@.push(
                old(self).history@[operation_index as int],
            ),
            r is None ==> final(self).history@ == old(self).history@,
    {
        if operation_index >= self.history.len() {
            return None;
        }
        let op = self.history[operation_index];
        self.record(op.first_num, op.second_num, op.operation_type)
    }

    pub fn clear_history(&mut self)
        ensures
            final(self).history@ == Seq::<Operation>::empty(),
    {
        self.history.clear();
    }
}

} // verus!
