use vstd::prelude::*;

verus! {

/// Whether an operand is handed over to the operation (its buffer may be reused
/// for the result) or only lent to it (it is never changed).
#[derive(Clone, Copy, PartialEq, Eq, Debug, Structural)]
pub enum Ownership {
    Owned,
    Borrowed,
}

/// The binary operators.
#[derive(Clone, Copy, PartialEq, Eq, Debug, Structural)]
pub enum Operator {
    Add,
    Sub,
    Mul,
    Div,
    Pow,
}

/// The buffer that receives the result of an operation.
#[derive(Clone, Copy, PartialEq, Eq, Debug, Structural)]
pub enum Target {
    /// The left operand's own buffer.
    Left,
    /// The right operand's own buffer.
    Right,
    /// A fresh copy of the left operand, at the left operand's precision.
    CopyOfLeft,
}

/// How the target buffer and the other operand are handed to the engine.
#[derive(Clone, Copy, PartialEq, Eq, Debug, Structural)]
pub enum Order {
    /// `target = target op other`.
    TargetFirst,
    /// `target = other op target`: the engine's reversed form.
    TargetSecond,
}

/// One side of a binary operation.
#[derive(Clone, Copy, PartialEq, Eq, Debug, Structural)]
pub enum Side {
    Left,
    Right,
}

/// Where the result of a binary operation goes, and in which order the engine
/// gets its operands.
#[derive(Clone, Copy, PartialEq, Eq, Debug, Structural)]
pub struct Plan {
    pub target: Target,
    pub order: Order,
}

impl Operator {
    pub open spec fn is_commutative(self) -> bool {
        self == Operator::Add || self == Operator::Mul
    }

    /// Whether swapping the operands leaves the result unchanged.
    pub fn commutative(self) -> (r: bool)
        ensures
            r == self.is_commutative(),
    {
        match self {
            Operator::Add | Operator::Mul => true,
            Operator::Sub | Operator::Div | Operator::Pow => false,
        }
    }
}

/// The reuse rule: an owned operand's buffer holds the result, the left one
/// when both are owned; when both are borrowed, a copy of the left one does.
pub open spec fn reused_target(left: Ownership, right: Ownership) -> Target {
    if left == Ownership::Owned {
        Target::Left
    } else if right == Ownership::Owned {
        Target::Right
    } else {
        Target::CopyOfLeft
    }
}

/// The operand whose value a target starts out with.
pub open spec fn target_side(target: Target) -> Side {
    match target {
        Target::Right => Side::Right,
        _ => Side::Left,
    }
}

/// The other operand.
pub open spec fn other_side(side: Side) -> Side {
    match side {
        Side::Left => Side::Right,
        Side::Right => Side::Left,
    }
}

/// The operands as the engine combines them: `first op second`.
pub open spec fn engine_operands(plan: Plan) -> (Side, Side) {
    let t = target_side(plan.target);
    match plan.order {
        Order::TargetFirst => (t, other_side(t)),
        Order::TargetSecond => (other_side(t), t),
    }
}

/// The precision of a binary operation's result: that of the buffer that
/// receives it, which the operation never changes.
pub open spec fn result_precision(
    left: Ownership,
    right: Ownership,
    left_precision: nat,
    right_precision: nat,
) -> nat {
    match reused_target(left, right) {
        Target::Right => right_precision,
        _ => left_precision,
    }
}

/// Plans `left op right`.
///
/// A borrowed operand is never the target. A non-commutative operator whose
/// right operand is the target uses the engine's reversed form, so that the
/// engine still computes `left op right`; a commutative one swaps the operands
/// instead.
pub fn plan(op: Operator, left: Ownership, right: Ownership) -> (r: Plan)
    ensures
        r.target == reused_target(left, right),
        r.target == Target::Left ==> left == Ownership::Owned,
        r.target == Target::Right ==> right == Ownership::Owned,
        !op.is_commutative() ==> engine_operands(r) == (Side::Left, Side::Right),
        op.is_commutative() ==> r.order == Order::TargetFirst,
{
    match (left, right) {
        (Ownership::Owned, _) => Plan { target: Target::Left, order: Order::TargetFirst },
        (Ownership::Borrowed, Ownership::Owned) => {
            if op.commutative() {
                Plan { target: Target::Right, order: Order::TargetFirst }
            } else {
                Plan { target: Target::Right, order: Order::TargetSecond }
            }
        },
        (Ownership::Borrowed, Ownership::Borrowed) => Plan {
            target: Target::CopyOfLeft,
            order: Order::TargetFirst,
        },
    }
}

/// Plans an operation on one value (a unary operation, or a binary one whose
/// other operand is a native number): the value's own buffer if it is owned,
/// else a copy of it.
pub fn plan_single(operand: Ownership) -> (r: Target)
    ensures
        r == reused_target(operand, Ownership::Borrowed),
{
    match operand {
        Ownership::Owned => Target::Left,
        Ownership::Borrowed => Target::CopyOfLeft,
    }
}

/// Whatever the operator, when both operands are handed over the result has
/// the left operand's precision, so swapping two operands of different
/// precisions swaps the result's precision: it follows the position, not the
/// values.
pub proof fn lemma_owned_result_takes_left_precision(
    op: Operator,
    a_precision: nat,
    b_precision: nat,
)
    ensures
        result_precision(Ownership::Owned, Ownership::Owned, a_precision, b_precision)
            == a_precision,
        result_precision(Ownership::Owned, Ownership::Owned, b_precision, a_precision)
            == b_precision,
{
}

} // verus!
