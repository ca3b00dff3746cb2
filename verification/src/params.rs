use vstd::prelude::*;

verus! {

/// A non-owning reference to a data line of the circuit: an index into the
/// circuit's wire table. Wires are opaque to this layer; two references are
/// the same wire exactly when their indices are equal, and a wire's own hash
/// is its index.
#[derive(Clone, Copy, Debug, PartialEq, Eq, Structural, Hash)]
pub struct Wire {
    pub id: u64,
}

/// One entry of an operation's parameter list.
///
/// A plain numeric parameter is carried as the bit pattern of its IEEE-754
/// binary64 value; this layer never interprets the bits numerically, it only
/// passes them to the caller, who owns the tolerant numeric comparison.
/// Symbolic expressions and other parameter objects are externally owned and
/// appear here as handles into the caller's object table; two handles denote
/// equal parameters exactly when they denote the same object.
#[derive(Clone, Copy, Debug, PartialEq, Eq, Structural, Hash)]
pub enum Param {
    /// A plain numeric value, by its bit pattern.
    Float(u64),
    /// A handle to a symbolic parameter expression.
    ParameterExpression(u64),
    /// A handle to an opaque parameter object.
    Obj(u64),
}

impl Param {
    /// Whether this parameter is a symbolic expression.
    pub open spec fn spec_is_expression(&self) -> bool {
        self matches Param::ParameterExpression(_)
    }
}

/// How one pair of parameters compares, given the caller's verdict `close` on
/// numeric closeness: two plain numeric parameters are equal exactly when the
/// verdict says so, expressions and objects are equal exactly when they are
/// the same object, and a mismatched pairing is never equal.
pub open spec fn param_pair_eq(a: Param, b: Param, close: bool) -> bool {
    match (a, b) {
        (Param::Float(_), Param::Float(_)) => close,
        (Param::ParameterExpression(x), Param::ParameterExpression(y)) => x == y,
        (Param::Obj(x), Param::Obj(y)) => x == y,
        _ => false,
    }
}

/// Pairwise comparison of two parameter lists under the closeness verdicts
/// `close`, indexed by position. Like the zip it models, the comparison runs
/// over the shorter of the two lists.
pub open spec fn params_pairwise_eq(a: Seq<Param>, b: Seq<Param>, close: Seq<bool>) -> bool {
    forall|i: int|
        0 <= i < vstd::math::min(a.len() as int, b.len() as int) ==> param_pair_eq(
            a[i],
            b[i],
            close[i],
        )
}

/// Copies a wire list; wires are plain values.
pub fn copy_wires(v: &Vec<Wire>) -> (r: Vec<Wire>)
    ensures
        r@ == v@,
{
    let mut r: Vec<Wire> = Vec::new();
    let mut i: usize = 0;
    while i < v.len()
        invariant
            0 <= i <= v.len(),
            r@ == v@.subrange(0, i as int),
        decreases v.len() - i,
    {
        r.push(v[i]);
        i = i + 1;
    }
    proof {
        assert(r@ =~= v@);
    }
    r
}

/// Copies a parameter list; parameters are plain values.
pub fn copy_params(v: &Vec<Param>) -> (r: Vec<Param>)
    ensures
        r@ == v@,
{
    let mut r: Vec<Param> = Vec::new();
    let mut i: usize = 0;
    while i < v.len()
        invariant
            0 <= i <= v.len(),
            r@ == v@.subrange(0, i as int),
        decreases v.len() - i,
    {
        r.push(v[i]);
        i = i + 1;
    }
    proof {
        assert(r@ =~= v@);
    }
    r
}

/// Element-wise equality of two wire lists.
pub fn wires_equal(a: &Vec<Wire>, b: &Vec<Wire>) -> (r: bool)
    ensures
        r == (a@ == b@),
{
    if a.len() != b.len() {
        proof {
            assert(a@.len() != b@.len());
        }
        return false;
    }
    let mut i: usize = 0;
    while i < a.len()
        invariant
            0 <= i <= a.len(),
            a@.len() == b@.len(),
            forall|j: int| 0 <= j < i ==> a@[j] == b@[j],
        decreases a.len() - i,
    {
        if a[i] != b[i] {
            return false;
        }
        i = i + 1;
    }
    proof {
        assert(a@ =~= b@);
    }
    true
}

} // verus!
