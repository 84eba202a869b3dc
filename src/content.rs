//! Content-stream operators, the resource names that invoke XObjects, and
//! the two ways in which an invocation is spliced into a page's operators.
use vstd::prelude::*;

verus! {

/// A PDF real number written as a decimal: `mantissa / 10^exponent`.
#[derive(Clone, Copy, Debug, PartialEq, Eq, Structural)]
pub struct Real {
    pub mantissa: i64,
    pub exponent: u8,
}

impl Real {
    /// The real with the integer value `value`.
    pub fn from_int(value: i64) -> (r: Real)
        ensures
            r == (Real { mantissa: value, exponent: 0 }),
    {
        Real { mantissa: value, exponent: 0 }
    }
}

/// One operand of a content-stream operator.
#[derive(Clone, Debug)]
pub enum Operand {
    Integer(i64),
    Real(Real),
    Name(Vec<u8>),
}

/// The mathematical value of an [`Operand`].
pub enum OperandView {
    Integer(i64),
    Real(Real),
    Name(Seq<u8>),
}

impl View for Operand {
    type V = OperandView;

    open spec fn view(&self) -> OperandView {
        match self {
            Operand::Integer(i) => OperandView::Integer(*i),
            Operand::Real(r) => OperandView::Real(*r),
            Operand::Name(n) => OperandView::Name(n@),
        }
    }
}

/// One content-stream instruction: an operator name and its operands.
#[derive(Clone, Debug)]
pub struct Operation {
    pub operator: Vec<u8>,
    pub operands: Vec<Operand>,
}

/// The mathematical value of an [`Operation`].
pub struct OperationView {
    pub operator: Seq<u8>,
    pub operands: Seq<OperandView>,
}

impl View for Operation {
    type V = OperationView;

    open spec fn view(&self) -> OperationView {
        OperationView {
            operator: self.operator@,
            operands: self.operands@.map_values(|o: Operand| o@),
        }
    }
}

/// The operators of a decoded content stream, as values.
pub open spec fn operations_view(ops: Seq<Operation>) -> Seq<OperationView> {
    ops.map_values(|o: Operation| o@)
}

pub open spec fn op(operator: Seq<u8>, operands: Seq<OperandView>) -> OperationView {
    OperationView { operator, operands }
}

/// `q`: save the graphics state.
pub open spec fn save_op() -> OperationView {
    op(seq![0x71u8], seq![])
}

/// `Q`: restore the graphics state.
pub open spec fn restore_op() -> OperationView {
    op(seq![0x51u8], seq![])
}

/// `w 0 0 h x y cm`: scale to `size`, then move to `position`.
pub open spec fn transform_op(position: (Real, Real), size: (Real, Real)) -> OperationView {
    op(
        seq![0x63u8, 0x6du8],
        seq![
            OperandView::Real(size.0),
            OperandView::Integer(0),
            OperandView::Integer(0),
            OperandView::Real(size.1),
            OperandView::Real(position.0),
            OperandView::Real(position.1),
        ],
    )
}

/// `/name Do`: paint the XObject that the page's resources file under `name`.
pub open spec fn invoke_op(name: Seq<u8>) -> OperationView {
    op(seq![0x44u8, 0x6fu8], seq![OperandView::Name(name)])
}

/// The operators after an image has been placed: the old ones untouched,
/// then `q`, `cm`, `Do`, `Q`.
pub open spec fn image_spliced(
    ops: Seq<OperationView>,
    name: Seq<u8>,
    position: (Real, Real),
    size: (Real, Real),
) -> Seq<OperationView> {
    ops + seq![save_op(), transform_op(position, size), invoke_op(name), restore_op()]
}

/// The operators after a form has been placed: the old ones wrapped in
/// `q` ... `Q`, then `Do` after the restore.
pub open spec fn form_spliced(ops: Seq<OperationView>, name: Seq<u8>) -> Seq<OperationView> {
    seq![save_op()] + ops + seq![restore_op(), invoke_op(name)]
}

/// The decimal digits of `n`, most significant first, without leading zeros.
pub open spec fn decimal(n: nat) -> Seq<u8>
    decreases n,
{
    if n < 10 {
        seq![(0x30 + n) as u8]
    } else {
        decimal(n / 10).push((0x30 + n % 10) as u8)
    }
}

/// The resource name under which the object with number `num` is filed: `X<num>`.
pub open spec fn resource_name_of(num: nat) -> Seq<u8> {
    seq![0x58u8] + decimal(num)
}

proof fn decimal_length(n: nat)
    ensures
        decimal(n).len() >= 1,
        (n < 10) == (decimal(n).len() == 1),
    decreases n,
{
    if n >= 10 {
        decimal_length(n / 10);
    }
}

proof fn decimal_injective(a: nat, b: nat)
    requires
        decimal(a) == decimal(b),
    ensures
        a == b,
    decreases a,
{
    decimal_length(a);
    decimal_length(b);
    if a >= 10 {
        // the last digit and the digits before it agree
        assert(decimal(a).drop_last() == decimal(a / 10));
        assert(decimal(b).drop_last() == decimal(b / 10));
        assert(decimal(a).last() == (0x30 + a % 10) as u8);
        assert(decimal(b).last() == (0x30 + b % 10) as u8);
        decimal_injective(a / 10, b / 10);
        assert(a == 10 * (a / 10) + a % 10);
        assert(b == 10 * (b / 10) + b % 10);
    } else {
        let (da, db) = (seq![(0x30 + a) as u8], seq![(0x30 + b) as u8]);
        assert(decimal(a) == da && decimal(b) == db);
        assert(da[0] == (0x30 + a) as u8 && db[0] == (0x30 + b) as u8);
    }
}

/// Distinct object numbers get distinct resource names, so every object
/// registered in a document is invoked under a name of its own.
pub proof fn resource_names_distinct(a: nat, b: nat)
    requires
        a != b,
    ensures
        resource_name_of(a) != resource_name_of(b),
{
    if resource_name_of(a) == resource_name_of(b) {
        assert(resource_name_of(a).drop_first() =~= decimal(a));
        assert(resource_name_of(b).drop_first() =~= decimal(b));
        decimal_injective(a, b);
    }
}

fn push_decimal(out: &mut Vec<u8>, n: u32)
    ensures
        final(out)@ == old(out)@ + decimal(n as nat),
    decreases n,
{
    if n >= 10 {
        push_decimal(out, n / 10);
    }
    let digit: u8 = (n % 10) as u8;
    out.push(0x30u8 + digit);
    assert(final(out)@ =~= old(out)@ + decimal(n as nat));
}

/// The resource name of the object numbered `num`: `X` followed by `num` in decimal.
pub fn resource_name(num: u32) -> (r: Vec<u8>)
    ensures
        r@ == resource_name_of(num as nat),
{
    let mut r: Vec<u8> = Vec::new();
    r.push(0x58u8);
    push_decimal(&mut r, num);
    r
}

fn no_operands() -> (r: Vec<Operand>)
    ensures
        r@.map_values(|o: Operand| o@) == Seq::<OperandView>::empty(),
{
    let r: Vec<Operand> = Vec::new();
    assert(r@.map_values(|o: Operand| o@) =~= Seq::<OperandView>::empty());
    r
}

fn save_operation() -> (r: Operation)
    ensures
        r@ == save_op(),
{
    let operator: Vec<u8> = vec![0x71u8];
    let r = Operation { operator, operands: no_operands() };
    assert(r@.operator =~= save_op().operator);
    r
}

fn restore_operation() -> (r: Operation)
    ensures
        r@ == restore_op(),
{
    let operator: Vec<u8> = vec![0x51u8];
    let r = Operation { operator, operands: no_operands() };
    assert(r@.operator =~= restore_op().operator);
    r
}

fn transform_operation(position: (Real, Real), size: (Real, Real)) -> (r: Operation)
    ensures
        r@ == transform_op(position, size),
{
    let operator: Vec<u8> = vec![0x63u8, 0x6du8];
    let operands: Vec<Operand> = vec![
        Operand::Real(size.0),
        Operand::Integer(0),
        Operand::Integer(0),
        Operand::Real(size.1),
        Operand::Real(position.0),
        Operand::Real(position.1),
    ];
    let r = Operation { operator, operands };
    assert(r@.operator =~= transform_op(position, size).operator);
    assert(r@.operands =~= transform_op(position, size).operands);
    r
}

fn invoke_operation(name: &Vec<u8>) -> (r: Operation)
    ensures
        r@ == invoke_op(name@),
{
    let operator: Vec<u8> = vec![0x44u8, 0x6fu8];
    let operands: Vec<Operand> = vec![Operand::Name(name.clone())];
    let r = Operation { operator, operands };
    assert(r@.operator =~= invoke_op(name@).operator);
    assert(r@.operands =~= invoke_op(name@).operands);
    r
}

/// Places an image: appends `q`, `w 0 0 h x y cm`, `/name Do`, `Q` after the
/// existing operators, which stay as they are.
pub fn splice_image(ops: &mut Vec<Operation>, name: &Vec<u8>, position: (Real, Real), size: (Real, Real))
    ensures
        operations_view(final(ops)@) == image_spliced(operations_view(old(ops)@), name@, position, size),
{
    ops.push(save_operation());
    ops.push(transform_operation(position, size));
    ops.push(invoke_operation(name));
    ops.push(restore_operation());
    assert(operations_view(final(ops)@) =~= image_spliced(operations_view(old(ops)@), name@, position, size));
}

/// Places a form: puts `q` before the existing operators, then appends `Q`
/// and `/name Do`, so that the form is painted after the restore.
pub fn splice_form(ops: &mut Vec<Operation>, name: &Vec<u8>)
    ensures
        operations_view(final(ops)@) == form_spliced(operations_view(old(ops)@), name@),
{
    ops.insert(0, save_operation());
    ops.push(restore_operation());
    ops.push(invoke_operation(name));
    assert(operations_view(final(ops)@) =~= form_spliced(operations_view(old(ops)@), name@));
}

} // verus!
