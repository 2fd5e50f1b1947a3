//! Reconstruct syntax trees from elaborated constructs.
//!
//! Every struct and enum type of the design is written as a typedef in the
//! package `global_types` (`struct_<i>`, `enum_<i>`, numbered by position);
//! a reference to a type names the first type of the design that is the same
//! type. Each design instantiation becomes a module of its own.

use vstd::prelude::*;
use vstd::pervasive::arbitrary;
use vstd::std_specs::vec::axiom_vec_index_decreases;
use crate::lexer::kw::Keyword;
use crate::number::{
    copy_logic_vec, limbs_value, magnitude_of, view_logic_vec, LogicNumber, LogicValue, LogicVec, SpecLogicNumber,
    SpecLogicVec,
};
use crate::source::{Span, Spanned};
use crate::syntax::ast::{
    self, copy_ident, copy_opt_expr, copy_opt_scope, copy_hier_id, copy_item, view_data_type,
    view_decl_assign, view_decl_assigns, view_dim, view_dims, view_enum_decl, view_aggr_decl,
    view_aggr_member, view_aggr_members, view_expr, view_hier_id, view_ident, view_item,
    view_items, view_opt_expr, view_opt_gen_name, view_opt_scope, view_param_decl, view_param_decls,
    view_port_decl, view_port_decls, view_scope, view_units, view_opt_exprs, view_hier_insts,
    view_modport_port_decls, view_simple_ports, AggrDecl, AggrMember, AggrType, DataType,
    DataTypeKind, DeclAssign, Dim, DimKind, EnumDecl, Expr, ExprKind, HierId, Ident, IntVecTy,
    Item, Lifetime, Signing, SpecAggrDecl, SpecAggrMember, SpecDataType, SpecDataTypeKind,
    SpecDeclAssign, SpecDim, SpecDimKind, SpecEnumDecl, SpecExpr, SpecExprKind, SpecHierId,
    SpecIdent, SpecItem, SpecScope, UnaryOp, SpecParamDecl, SpecPortDecl, SpecModportPortDecl,
    SpecModportSimplePort, SpecHierInstantiation, SpecHierInst, SpecPortConn, SpecIfGen, SpecGenBlock,
    SpecDesignDecl, SpecPkgDecl, PortDir, view_cond_blocks, view_cond_block, view_hier_inst,
    view_modport_entries, view_modport_entry, view_modport_port_decl,
};
use crate::syntax::tokens::{SpecTokenKind, TokenKind};
use crate::text::{decimal, push_decimal};
use super::expr::{self as ir, Val};
use super::hier::{self, HierItem, Source};
use super::ty::{view_element, eq_enum, eq_struct, view_enum, view_struct, Enum, IntTy, SpecEnum, SpecStruct, Struct, Ty};

verus! {

// ---------------------------------------------------------------------------
// Names and literals

/// The struct types of a design, in order.
pub open spec fn struct_views(src: Source) -> Seq<SpecStruct> {
    src.structs@.map_values(|s: Struct| view_struct(s))
}

/// The enum types of a design, in order.
pub open spec fn enum_views(src: Source) -> Seq<SpecEnum> {
    src.enums@.map_values(|e: Enum| view_enum(e))
}

/// The first position of `x` in `s`.
pub open spec fn first_index<A>(s: Seq<A>, x: A) -> int {
    choose|i: int| is_first_index(s, x, i)
}

pub open spec fn is_first_index<A>(s: Seq<A>, x: A, i: int) -> bool {
    &&& 0 <= i < s.len()
    &&& s[i] == x
    &&& forall|j: int| 0 <= j < i ==> s[j] != x
}

/// The name of the typedef of the struct type at position `i`.
pub open spec fn struct_type_name(i: int) -> Seq<char> {
    "struct_"@ + decimal(i as nat)
}

/// The name of the typedef of the enum type at position `i`.
pub open spec fn enum_type_name(i: int) -> Seq<char> {
    "enum_"@ + decimal(i as nat)
}

/// The name of the package that holds the typedefs of struct and enum types.
pub open spec fn global_pkg_name() -> Seq<char> {
    "global_types"@
}

pub open spec fn unspanned_ident(s: Seq<char>) -> SpecIdent {
    SpecIdent { value: s, span: Span::spec_none() }
}

/// The scope `global_types::`.
pub open spec fn global_scope() -> SpecScope {
    SpecScope::Name(None, unspanned_ident(global_pkg_name()))
}

/// The scope written before the name of a struct or enum type.
pub open spec fn type_scope(qualify: bool) -> Option<SpecScope> {
    if qualify {
        Some(global_scope())
    } else {
        None
    }
}

/// The signed 32-bit vector that holds `v`.
pub open spec fn int32(v: int) -> SpecLogicVec {
    SpecLogicVec { width: 32, signed: true, negative: v < 0, magnitude: seq![magnitude_of(v) as u64] }
}

/// An integer literal of the vector `v`.
pub open spec fn int_literal(v: SpecLogicVec, sized: bool, span: Span) -> SpecExpr {
    Spanned {
        value: SpecExprKind::Literal(
            Spanned { value: SpecTokenKind::IntegerLiteral(SpecLogicNumber { value: v, sized }), span },
        ),
        span,
    }
}

pub open spec fn abs(v: int) -> int {
    if v < 0 {
        -v
    } else {
        v
    }
}

/// The expression of a 32-bit integer: an unsized literal of its magnitude,
/// under a unary minus where it is negative.
pub open spec fn spec_reconstruct_int(val: i32, span: Span) -> SpecExpr {
    let lit = int_literal(int32(abs(val as int)), false, span);
    if val >= 0 {
        lit
    } else {
        Spanned { value: SpecExprKind::Unary(UnaryOp::Sub, Box::new(lit)), span }
    }
}

/// The dimension `[ub:lb]`.
pub open spec fn range_dim(ub: SpecExpr, lb: SpecExpr, span: Span) -> SpecDim {
    Spanned { value: SpecDimKind::Range(Box::new(ub), Box::new(lb)), span }
}

/// The dimension `[ub:lb]` of an instance or interface port array.
pub open spec fn bounds_dim(b: (i32, i32)) -> SpecDim {
    range_dim(
        spec_reconstruct_int(b.0, Span::spec_none()),
        spec_reconstruct_int(b.1, Span::spec_none()),
        Span::spec_none(),
    )
}

/// The dimension `[ub:lb]` of a vector or array type, with both bounds as
/// unsized 32-bit literals.
pub open spec fn literal_dim(ub: int, lb: int, span: Span) -> SpecDim {
    range_dim(int_literal(int32(ub), false, span), int_literal(int32(lb), false, span), span)
}

// ---------------------------------------------------------------------------
// Types

/// The dimensions of the arrays around an integral type, outermost first.
pub open spec fn array_dims(ty: IntTy, span: Span) -> Seq<SpecDim>
    decreases ty,
{
    match ty {
        IntTy::Array(e, ub, lb) => seq![literal_dim(ub as int, lb as int, span)] + array_dims(*e, span),
        _ => Seq::empty(),
    }
}

/// The element type inside all arrays.
pub open spec fn element_ty(ty: IntTy) -> IntTy
    decreases ty,
{
    match ty {
        IntTy::Array(e, _, _) => element_ty(*e),
        _ => ty,
    }
}

pub open spec fn vec_ty(two_state: bool) -> IntVecTy {
    if two_state {
        IntVecTy::Bit
    } else {
        IntVecTy::Logic
    }
}

pub open spec fn signing(sign: bool) -> Signing {
    if sign {
        Signing::Signed
    } else {
        Signing::Unsigned
    }
}

/// An integral type can be written: each vector is at least one bit wide,
/// and each struct or enum type it names is a type of the design.
pub open spec fn int_ty_ok(src: Source, ty: IntTy) -> bool
    decreases ty,
{
    match ty {
        IntTy::Array(e, _, _) => int_ty_ok(src, *e),
        IntTy::Logic(_, _) => true,
        IntTy::SimpleVec(width, _, _) => width >= 1,
        IntTy::Struct(s) => struct_views(src).contains(view_struct(*s)),
        IntTy::Enum(e) => enum_views(src).contains(view_enum(*e)),
    }
}

/// A type can be written: it is the type of types, a string, or a writable
/// integral type.
pub open spec fn ty_ok(src: Source, ty: Ty) -> bool {
    match ty {
        Ty::Type => true,
        Ty::Int(t) => int_ty_ok(src, t),
        Ty::String => true,
        Ty::FixStr(_) => false,
    }
}

/// A constant of an integral type can be written: the type is a four-state
/// vector, or an enum type of the design.
pub open spec fn val_int_ok(src: Source, ty: IntTy) -> bool {
    match ty {
        IntTy::SimpleVec(_, two_state, _) => !two_state,
        IntTy::Enum(e) => enum_views(src).contains(view_enum(*e)),
        _ => false,
    }
}

/// A value of a type can be written: it is of the kind the type gives, and
/// the type is one whose values can be written.
pub open spec fn val_ok(src: Source, ty: Ty, val: Val) -> bool {
    match ty {
        Ty::Type => match val {
            Val::Type(t) => ty_ok(src, t),
            _ => false,
        },
        Ty::Int(sub) => val is Int && val_int_ok(src, sub),
        Ty::FixStr(_) => val is FixStr,
        Ty::String => false,
    }
}

/// An elaborated expression can be written: it is a name, or unary
/// operators applied to a name.
pub open spec fn expr_ok(e: ir::Expr) -> bool
    decreases e,
{
    match e.value {
        ir::ExprKind::HierName(_, _) => true,
        ir::ExprKind::Unary(_, inner) => expr_ok(*inner),
        _ => false,
    }
}

/// The syntax of an elaborated expression.
pub open spec fn spec_expr(e: ir::Expr) -> SpecExpr
    decreases e,
{
    match e.value {
        ir::ExprKind::HierName(scope, name) => Spanned {
            value: SpecExprKind::HierName(view_opt_scope(scope), view_hier_id(name.value)),
            span: e.span,
        },
        ir::ExprKind::Unary(op, inner) => Spanned {
            value: SpecExprKind::Unary(op, Box::new(spec_expr(*inner))),
            span: e.span,
        },
        _ => arbitrary(),
    }
}

// ---------------------------------------------------------------------------
// Items

pub open spec fn is_param(it: HierItem) -> bool {
    it is Param
}

pub open spec fn is_port(it: HierItem) -> bool {
    it is DataPort || it is InterfacePort
}

/// Whether an item is a port (`ports`) or a parameter (`!ports`).
pub open spec fn leading_kind(it: HierItem, ports: bool) -> bool {
    if ports {
        is_port(it)
    } else {
        is_param(it)
    }
}

/// The number of items at the front of `s` that are ports (`ports`) or
/// parameters (`!ports`).
pub open spec fn leading_count(s: Seq<HierItem>, ports: bool) -> nat
    decreases s.len(),
{
    if s.len() > 0 && leading_kind(s[0], ports) {
        1 + leading_count(s.subrange(1, s.len() as int), ports)
    } else {
        0
    }
}

/// The number of parameters that open a scope.
pub open spec fn num_params(items: Seq<HierItem>) -> nat {
    leading_count(items, false)
}

/// The number of ports that follow the parameters that open a scope.
pub open spec fn num_ports(items: Seq<HierItem>) -> nat {
    leading_count(items.subrange(num_params(items) as int, items.len() as int), true)
}

/// A parameter declaration can be written.
pub open spec fn param_ok(src: Source, d: hier::ParamDecl) -> bool {
    ty_ok(src, d.ty) && val_ok(src, d.ty, d.init)
}

/// A port in the header of a design can be written.
pub open spec fn port_ok(src: Source, it: HierItem) -> bool {
    match it {
        HierItem::DataPort(d) => ty_ok(src, d.ty),
        HierItem::InterfacePort(d) => forall|i: int| 0 <= i < d.dim@.len() ==> bounds_ok(#[trigger] d.dim@[i]),
        _ => false,
    }
}

/// Neither bound is the least 32-bit integer, whose magnitude has no 32-bit value.
pub open spec fn bounds_ok(b: (i32, i32)) -> bool {
    b.0 != i32::MIN && b.1 != i32::MIN
}

/// An element of an enum type is an element of an enum type of the design.
pub open spec fn enum_elem_ok(src: Source, e: Enum, index: usize) -> bool {
    &&& enum_views(src).contains(view_enum(e))
    &&& index < e.elements@.len()
}

/// An item can be written, with all the items it holds.
pub open spec fn item_ok(src: Source, item: HierItem) -> bool
    decreases item,
{
    match item {
        HierItem::Param(d) => param_ok(src, d),
        HierItem::Type(d) => ty_ok(src, d.ty),
        HierItem::Design(d) => forall|i: int|
            0 <= i < d.instances@.len() ==> {
                let items = (#[trigger] d.instances@[i]).scope.items@;
                &&& inst_head_ok(src, items)
                &&& forall|j: int|
                    num_params(items) + num_ports(items) <= j < items.len() ==> item_ok(src, #[trigger] items[j])
            },
        HierItem::Instance(d) => {
            &&& forall|i: int| 0 <= i < d.dim@.len() ==> bounds_ok(#[trigger] d.dim@[i])
            &&& forall|i: int|
                0 <= i < d.port@.len() ==> (#[trigger] d.port@[i] matches Some(e) ==> expr_ok(e))
        },
        HierItem::Other(_) => true,
        HierItem::OtherName => true,
        HierItem::GenBlock(g) => forall|i: int|
            0 <= i < g.scope.items@.len() ==> item_ok(src, #[trigger] g.scope.items@[i]),
        HierItem::LoopGenBlock(l) => forall|i: int, j: int|
            0 <= i < l.instances@.len() && 0 <= j < l.instances@[i].scope.items@.len()
                ==> item_ok(src, #[trigger] l.instances@[i].scope.items@[j]),
        HierItem::Modport(m) => forall|i: int|
            0 <= i < m.scope.items@.len() ==> (#[trigger] m.scope.items@[i]) is DataPort,
        HierItem::Enum(e, index) => enum_elem_ok(src, e, index),
        HierItem::DataPort(_) => false,
        HierItem::InterfacePort(_) => false,
    }
}

/// A design instantiation can be written: its leading parameters and ports,
/// and the items after them.
pub open spec fn inst_ok(src: Source, inst: hier::DesignInstantiation) -> bool {
    inst_items_ok(src, inst.scope.items@)
}

/// The items of a design instantiation can be written: its leading
/// parameters and ports, and the items after them.
pub open spec fn inst_items_ok(src: Source, items: Seq<HierItem>) -> bool {
    &&& inst_head_ok(src, items)
    &&& forall|i: int|
        num_params(items) + num_ports(items) <= i < items.len() ==> item_ok(src, #[trigger] items[i])
}

/// The leading parameters and ports of a design instantiation can be written.
pub open spec fn inst_head_ok(src: Source, items: Seq<HierItem>) -> bool {
    let n = num_params(items);
    let m = num_ports(items);
    &&& forall|i: int| 0 <= i < n ==> param_ok(src, #[trigger] items[i]->Param_0)
    &&& forall|i: int| n <= i < n + m ==> port_ok(src, #[trigger] items[i])
}

/// Every item of a list can be written.
pub open spec fn items_ok(src: Source, items: Seq<HierItem>) -> bool {
    forall|i: int| 0 <= i < items.len() ==> item_ok(src, #[trigger] items[i])
}

/// An enum type can be written: its base type, and its values where it has any.
pub open spec fn enum_ok(src: Source, e: Enum) -> bool {
    &&& int_ty_ok(src, e.base)
    &&& e.elements@.len() > 0 ==> val_int_ok(src, e.base)
}

/// A struct type can be written: the type of each member, and each default value.
pub open spec fn struct_ok(src: Source, s: Struct) -> bool {
    forall|i: int| 0 <= i < s.members@.len() ==> member_ok(src, #[trigger] s.members@[i])
}

pub open spec fn member_ok(src: Source, m: (IntTy, Ident, Option<LogicVec>)) -> bool {
    &&& int_ty_ok(src, m.0)
    &&& m.2 is Some ==> val_int_ok(src, m.0)
}

/// A whole design can be written.
pub open spec fn source_ok(src: Source) -> bool {
    &&& forall|i: int| 0 <= i < src.enums@.len() ==> enum_ok(src, #[trigger] src.enums@[i])
    &&& forall|i: int| 0 <= i < src.structs@.len() ==> struct_ok(src, #[trigger] src.structs@[i])
    &&& forall|i: int| 0 <= i < src.pkgs@.len() ==> items_ok(src, (#[trigger] src.pkgs@[i]).scope.items@)
    &&& forall|i: int| 0 <= i < src.units@.len() ==> items_ok(src, (#[trigger] src.units@[i]).items@)
}

/// Writes syntax trees for the constructs of an elaborated design.
pub struct Reconstructor<'a> {
    pub source: &'a Source,
    /// Whether references to struct and enum types are qualified by `global_types::`.
    pub global_qualify: bool,
}

impl<'a> Reconstructor<'a> {
    /// The position of the first struct type of the design that is the same as `s`.
    pub open spec fn struct_pos(self, s: Struct) -> int {
        first_index(struct_views(*self.source), view_struct(s))
    }

    /// The position of the first enum type of the design that is the same as `e`.
    pub open spec fn enum_pos(self, e: Enum) -> int {
        first_index(enum_views(*self.source), view_enum(e))
    }

    /// The data type of an integral type.
    pub open spec fn spec_ty_int(self, ty: IntTy, span: Span) -> SpecDataType {
        let dims = array_dims(ty, span);
        Spanned {
            value: match element_ty(ty) {
                IntTy::Logic(two_state, sign) => SpecDataTypeKind::IntVec(vec_ty(two_state), signing(sign), dims),
                IntTy::SimpleVec(width, two_state, sign) => SpecDataTypeKind::IntVec(
                    vec_ty(two_state),
                    signing(sign),
                    dims.push(literal_dim(width - 1, 0, span)),
                ),
                IntTy::Struct(s) => SpecDataTypeKind::HierName(
                    type_scope(self.global_qualify),
                    unspanned_ident(struct_type_name(self.struct_pos(*s))),
                    dims,
                ),
                IntTy::Enum(e) => SpecDataTypeKind::HierName(
                    type_scope(self.global_qualify),
                    unspanned_ident(enum_type_name(self.enum_pos(*e))),
                    dims,
                ),
                IntTy::Array(_, _, _) => arbitrary(),
            },
            span,
        }
    }

    /// The data type of a type, and its unpacked dimensions (there are none).
    pub open spec fn spec_ty(self, ty: Ty, span: Span) -> (SpecDataType, Seq<SpecDim>) {
        match ty {
            Ty::Type => (Spanned { value: SpecDataTypeKind::Type, span }, Seq::empty()),
            Ty::Int(t) => (self.spec_ty_int(t, span), Seq::empty()),
            Ty::String => (Spanned { value: SpecDataTypeKind::String, span }, Seq::empty()),
            Ty::FixStr(_) => arbitrary(),
        }
    }

    /// A sized literal of a constant.
    pub open spec fn spec_const(val: SpecLogicVec, span: Span) -> SpecExpr {
        int_literal(val, true, span)
    }

    /// The expression of a constant of an integral type: the literal, cast to
    /// the type where it is an enum type.
    pub open spec fn spec_val_int(self, ty: IntTy, val: LogicVec, span: Span) -> SpecExpr {
        match ty {
            IntTy::Enum(_) => Spanned {
                value: SpecExprKind::TypeCast(
                    Box::new(Spanned {
                        value: SpecExprKind::Type(Box::new(self.spec_ty_int(ty, span))),
                        span,
                    }),
                    Box::new(Self::spec_const(view_logic_vec(val), span)),
                ),
                span,
            },
            _ => Self::spec_const(view_logic_vec(val), span),
        }
    }

    /// The expression of a value of a type.
    pub open spec fn spec_val(self, ty: Ty, val: Val, span: Span) -> SpecExpr {
        match (ty, val) {
            (Ty::Type, Val::Type(t)) => Spanned {
                value: SpecExprKind::Type(Box::new(self.spec_ty(t, span).0)),
                span,
            },
            (Ty::Int(sub), Val::Int(v)) => self.spec_val_int(sub, v, span),
            (Ty::FixStr(_), Val::FixStr(s)) => Spanned {
                value: SpecExprKind::Literal(Spanned { value: SpecTokenKind::StringLiteral(s@), span }),
                span,
            },
            _ => arbitrary(),
        }
    }

    /// An element of an enum type: its name behind the prefix and `_`, and
    /// its value.
    pub open spec fn spec_enum_member(self, base: IntTy, el: (Ident, LogicVec), prefix: Seq<char>) -> SpecDeclAssign {
        SpecDeclAssign {
            name: SpecIdent { value: prefix + "_"@ + el.0.value@, span: el.0.span },
            dim: Seq::empty(),
            init: Some(Box::new(self.spec_val_int(base, el.1, Span::spec_none()))),
        }
    }

    /// The declaration of an enum type.
    pub open spec fn spec_enum(self, e: Enum, prefix: Seq<char>) -> SpecEnumDecl {
        SpecEnumDecl {
            ty: Some(Box::new(self.spec_ty_int(e.base, Span::spec_none()))),
            members: Seq::new(e.elements@.len(), |i: int| self.spec_enum_member(e.base, e.elements@[i], prefix)),
        }
    }

    /// A member of a struct type, declared alone with its default value.
    pub open spec fn spec_struct_member(self, m: (IntTy, Ident, Option<LogicVec>)) -> SpecAggrMember {
        SpecAggrMember {
            ty: self.spec_ty_int(m.0, Span::spec_none()),
            list: seq![SpecDeclAssign {
                name: view_ident(m.1),
                dim: Seq::empty(),
                init: match m.2 {
                    Some(v) => Some(Box::new(self.spec_val_int(m.0, v, Span::spec_none()))),
                    None => None,
                },
            }],
        }
    }

    /// The declaration of a struct type: packed, with its signing and members.
    pub open spec fn spec_struct(self, s: Struct) -> SpecAggrDecl {
        SpecAggrDecl {
            kind: AggrType::Struct,
            packed: true,
            sign: signing(s.sign),
            members: Seq::new(s.members@.len(), |i: int| self.spec_struct_member(s.members@[i])),
        }
    }

    /// The declaration of a parameter.
    pub open spec fn spec_param_decl(self, d: hier::ParamDecl) -> SpecParamDecl {
        let t = self.spec_ty(d.ty, Span::spec_none());
        SpecParamDecl {
            kw: d.kw,
            ty: Some(Box::new(t.0)),
            list: seq![SpecDeclAssign {
                name: view_ident(d.name),
                dim: t.1,
                init: Some(Box::new(self.spec_val(d.ty, d.init, Span::spec_none()))),
            }],
        }
    }

    /// A port in the header of a design.
    pub open spec fn spec_port(self, it: HierItem) -> SpecPortDecl {
        match it {
            HierItem::DataPort(d) => {
                let t = self.spec_ty(d.ty, Span::spec_none());
                SpecPortDecl::Data(
                    d.dir,
                    d.net,
                    Box::new(t.0),
                    seq![SpecDeclAssign { name: view_ident(d.name), dim: t.1, init: view_opt_expr(d.init) }],
                )
            },
            HierItem::InterfacePort(d) => SpecPortDecl::Interface(
                Some(Box::new(view_ident(d.inst_name))),
                match d.modport {
                    Some(m) => Some(Box::new(view_ident(m))),
                    None => None,
                },
                seq![SpecDeclAssign {
                    name: view_ident(d.name),
                    dim: d.dim@.map_values(|b: (i32, i32)| bounds_dim(b)),
                    init: None,
                }],
            ),
            _ => arbitrary(),
        }
    }

    /// A port of a modport, as a simple port with its direction.
    pub open spec fn spec_modport_port(it: HierItem) -> SpecModportPortDecl {
        match it {
            HierItem::DataPort(d) => SpecModportPortDecl::Simple(
                d.dir,
                seq![SpecModportSimplePort::Named(view_ident(d.name))],
            ),
            _ => arbitrary(),
        }
    }

    /// An instantiation with a single instance.
    pub open spec fn spec_instance(self, d: hier::InstanceDecl) -> SpecItem {
        SpecItem::HierInstantiation(Box::new(SpecHierInstantiation {
            name: view_ident(d.inst_name),
            inst: seq![SpecHierInst {
                name: view_ident(d.name),
                dim: d.dim@.map_values(|b: (i32, i32)| bounds_dim(b)),
                ports: SpecPortConn::Ordered(d.port@.map_values(|p: Option<ir::Expr>| match p {
                    Some(e) => Some(Box::new(spec_expr(e))),
                    None => None,
                })),
            }],
        }))
    }

    /// An element of an enum type, declared as a parameter whose value is the
    /// element as named in `global_types`.
    pub open spec fn spec_enum_elem(self, e: Enum, index: usize) -> SpecItem {
        let pos = self.enum_pos(e);
        let name = e.elements@[index as int].0;
        SpecItem::ParamDecl(Box::new(SpecParamDecl {
            kw: Keyword::Parameter,
            ty: None,
            list: seq![SpecDeclAssign {
                name: view_ident(name),
                dim: Seq::empty(),
                init: Some(Box::new(Spanned {
                    value: SpecExprKind::HierName(
                        Some(global_scope()),
                        SpecHierId::Name(unspanned_ident(enum_type_name(pos) + "_"@ + name.value@)),
                    ),
                    span: Span::spec_none(),
                })),
            }],
        }))
    }

    /// The items written for an item of a scope.
    pub open spec fn spec_item(self, item: HierItem) -> Seq<SpecItem>
        decreases item, 0int,
    {
        match item {
            HierItem::Param(d) => seq![SpecItem::ParamDecl(Box::new(self.spec_param_decl(d)))],
            HierItem::Type(d) => seq![SpecItem::Typedef(
                Box::new(self.spec_ty(d.ty, Span::spec_none()).0),
                Box::new(view_ident(d.name)),
                self.spec_ty(d.ty, Span::spec_none()).1,
            )],
            HierItem::Design(d) => Seq::new(
                d.instances@.len(),
                |i: int| if 0 <= i < d.instances@.len() {
                    self.spec_instantiation(d.instances@[i])
                } else {
                    arbitrary()
                },
            ),
            HierItem::Instance(d) => seq![self.spec_instance(d)],
            HierItem::Other(i) => seq![view_item(i)],
            HierItem::OtherName => Seq::empty(),
            HierItem::GenBlock(g) => seq![self.spec_gen_if(g)],
            HierItem::LoopGenBlock(l) => Seq::new(
                l.instances@.len(),
                |i: int| if 0 <= i < l.instances@.len() {
                    self.spec_gen_if(l.instances@[i])
                } else {
                    arbitrary()
                },
            ),
            HierItem::Modport(m) => seq![SpecItem::ModportDecl(
                seq![(view_ident(m.name), m.scope.items@.map_values(|it: HierItem| Self::spec_modport_port(it)))],
            )],
            HierItem::Enum(e, index) => seq![self.spec_enum_elem(e, index)],
            HierItem::DataPort(_) => Seq::empty(),
            HierItem::InterfacePort(_) => Seq::empty(),
        }
    }

    /// A generate block, written as a generate `if` whose condition is the
    /// constant 1.
    pub open spec fn spec_gen_if(self, g: hier::GenBlock) -> SpecItem
        decreases g, 0int,
    {
        SpecItem::IfGen(Box::new(SpecIfGen {
            if_block: seq![(
                Self::spec_const(LogicVec::spec_from_logic_value(LogicValue::One), Span::spec_none()),
                SpecGenBlock {
                    name: view_opt_gen_name(g.name),
                    items: self.spec_items(g.scope.items@, 0, g.scope.items@.len() as int),
                },
            )],
            else_block: None,
        }))
    }

    /// The items written for `items[lo..hi]`, in order.
    pub open spec fn spec_items(self, items: Seq<HierItem>, lo: int, hi: int) -> Seq<SpecItem>
        decreases items, hi - lo,
    {
        if 0 <= lo < hi <= items.len() {
            self.spec_items(items, lo, hi - 1) + self.spec_item(items[hi - 1])
        } else {
            Seq::empty()
        }
    }

    /// A design instantiation, written as a design of its own: its leading
    /// parameters, the ports after them, and the remaining items.
    pub open spec fn spec_instantiation(self, inst: hier::DesignInstantiation) -> SpecItem
        decreases inst, 0int,
    {
        let items = inst.scope.items@;
        let n = num_params(items);
        let m = num_ports(items);
        SpecItem::DesignDecl(Box::new(SpecDesignDecl {
            kw: inst.kw,
            lifetime: inst.lifetime,
            name: view_ident(inst.name),
            param: if n > 0 {
                Some(Seq::new(n, |i: int| self.spec_param_decl(items[i]->Param_0)))
            } else {
                None
            },
            port: Seq::new(m, |i: int| self.spec_port(items[n + i])),
            items: self.spec_items(items, (n + m) as int, items.len() as int),
        }))
    }

    /// The typedef of the enum type at position `i`.
    pub open spec fn spec_enum_typedef(self, i: int) -> SpecItem {
        SpecItem::Typedef(
            Box::new(Spanned {
                value: SpecDataTypeKind::Enum(
                    self.spec_enum(self.source.enums@[i], enum_type_name(i)),
                    Seq::empty(),
                ),
                span: Span::spec_none(),
            }),
            Box::new(unspanned_ident(enum_type_name(i))),
            Seq::empty(),
        )
    }

    /// The typedef of the struct type at position `i`.
    pub open spec fn spec_struct_typedef(self, i: int) -> SpecItem {
        SpecItem::Typedef(
            Box::new(Spanned {
                value: SpecDataTypeKind::Aggr(self.spec_struct(self.source.structs@[i]), Seq::empty()),
                span: Span::spec_none(),
            }),
            Box::new(unspanned_ident(struct_type_name(i))),
            Seq::empty(),
        )
    }

    /// The package `global_types`: the typedefs of all enum types, then of all
    /// struct types.
    pub open spec fn spec_global_pkg(self) -> SpecItem {
        SpecItem::PkgDecl(Box::new(SpecPkgDecl {
            lifetime: Lifetime::Static,
            name: unspanned_ident(global_pkg_name()),
            items: Seq::new(self.source.enums@.len(), |i: int| self.spec_enum_typedef(i))
                + Seq::new(self.source.structs@.len(), |i: int| self.spec_struct_typedef(i)),
        }))
    }

    /// The same reconstructor, qualifying references to struct and enum types.
    pub open spec fn qualified(self) -> Reconstructor<'a> {
        Reconstructor { source: self.source, global_qualify: true }
    }

    /// A package of the design.
    pub open spec fn spec_pkg(self, p: hier::PkgDecl) -> SpecItem {
        SpecItem::PkgDecl(Box::new(SpecPkgDecl {
            lifetime: Lifetime::Static,
            name: view_ident(p.name),
            items: self.spec_items(p.scope.items@, 0, p.scope.items@.len() as int),
        }))
    }

    /// The compilation units written for the design: first a unit of the
    /// package `global_types` and the packages of the design, then one unit
    /// for each compilation unit of the design.
    pub open spec fn spec_reconstruct(self) -> Seq<Seq<SpecItem>> {
        let q = self.qualified();
        let first = seq![self.spec_global_pkg()]
            + Seq::new(self.source.pkgs@.len(), |i: int| q.spec_pkg(self.source.pkgs@[i]));
        seq![first] + Seq::new(
            self.source.units@.len(),
            |i: int| q.spec_items(self.source.units@[i].items@, 0, self.source.units@[i].items@.len() as int),
        )
    }
}

// ---------------------------------------------------------------------------
// Properties

/// The integer an expression of literals and unary signs denotes.
pub open spec fn const_value(e: SpecExpr) -> Option<int>
    decreases e,
{
    match e.value {
        SpecExprKind::Literal(t) => match t.value {
            SpecTokenKind::IntegerLiteral(n) => Some(n.value.value()),
            SpecTokenKind::StringLiteral(_) => None,
        },
        SpecExprKind::Unary(UnaryOp::Sub, inner) => match const_value(*inner) {
            Some(v) => Some(-v),
            None => None,
        },
        SpecExprKind::Unary(UnaryOp::Add, inner) => const_value(*inner),
        _ => None,
    }
}

/// The bounds a dimension `[ub:lb]` denotes.
pub open spec fn dim_bounds(d: SpecDim) -> Option<(int, int)> {
    match d.value {
        SpecDimKind::Range(ub, lb) => match (const_value(*ub), const_value(*lb)) {
            (Some(u), Some(l)) => Some((u, l)),
            _ => None,
        },
        SpecDimKind::Value(_) => None,
    }
}

/// The bounds of the arrays around an integral type, outermost first.
pub open spec fn array_bounds(ty: IntTy) -> Seq<(int, int)>
    decreases ty,
{
    match ty {
        IntTy::Array(e, ub, lb) => seq![(ub as int, lb as int)] + array_bounds(*e),
        _ => Seq::empty(),
    }
}

/// The dimensions of a data type.
pub open spec fn data_type_dims(d: SpecDataType) -> Seq<SpecDim> {
    match d.value {
        SpecDataTypeKind::IntVec(_, _, dims) => dims,
        SpecDataTypeKind::HierName(_, _, dims) => dims,
        SpecDataTypeKind::Enum(_, dims) => dims,
        SpecDataTypeKind::Aggr(_, dims) => dims,
        _ => Seq::empty(),
    }
}

proof fn lemma_int32_value(v: int)
    requires
        -0x1_0000_0000_0000_0000 < v < 0x1_0000_0000_0000_0000,
    ensures
        int32(v).value() == v,
{
    let m = int32(v).magnitude;
    assert(m.drop_first() =~= Seq::<u64>::empty());
    assert(limbs_value(m.drop_first()) == 0);
    assert(limbs_value(m) == magnitude_of(v));
}

/// The expression written for a 32-bit integer denotes that integer.
pub proof fn law_int_denotes_value(val: i32, span: Span)
    requires
        val != i32::MIN,
    ensures
        const_value(spec_reconstruct_int(val, span)) == Some(val as int),
{
    let lit = int_literal(int32(abs(val as int)), false, span);
    lemma_int32_value(abs(val as int));
    assert(const_value(lit) == Some(abs(val as int)));
}

proof fn lemma_array_dims(ty: IntTy, span: Span)
    ensures
        array_dims(ty, span).len() == array_bounds(ty).len(),
        forall|k: int| 0 <= k < array_bounds(ty).len()
            ==> dim_bounds(#[trigger] array_dims(ty, span)[k]) == Some(array_bounds(ty)[k]),
    decreases ty,
{
    match ty {
        IntTy::Array(e, ub, lb) => {
            lemma_array_dims(*e, span);
            let d = literal_dim(ub as int, lb as int, span);
            lemma_int32_value(ub as int);
            lemma_int32_value(lb as int);
            assert(const_value(int_literal(int32(ub as int), false, span)) == Some(ub as int));
            assert(const_value(int_literal(int32(lb as int), false, span)) == Some(lb as int));
            assert(dim_bounds(d) == Some((ub as int, lb as int)));
            assert forall|k: int| 0 <= k < array_bounds(ty).len()
                implies dim_bounds(#[trigger] array_dims(ty, span)[k]) == Some(array_bounds(ty)[k]) by {
                if k > 0 {
                    assert(array_dims(ty, span)[k] == array_dims(*e, span)[k - 1]);
                    assert(array_bounds(ty)[k] == array_bounds(*e)[k - 1]);
                }
            }
        },
        _ => {},
    }
}

/// The dimensions written for an integral type are those of the type: the
/// bounds of its arrays, outermost first, and then, for a vector of `w`
/// bits, the range `[w-1:0]`.
pub proof fn law_type_dims_kept(r: Reconstructor, ty: IntTy, span: Span)
    requires
        int_ty_ok(*r.source, ty),
    ensures
        ({
            let dims = data_type_dims(r.spec_ty_int(ty, span));
            let bounds = array_bounds(ty);
            &&& forall|k: int| 0 <= k < bounds.len() ==> dim_bounds(#[trigger] dims[k]) == Some(bounds[k])
            &&& match element_ty(ty) {
                IntTy::SimpleVec(w, _, _) => dims.len() == bounds.len() + 1 && dim_bounds(dims[bounds.len() as int])
                    == Some((w - 1, 0int)),
                _ => dims.len() == bounds.len(),
            }
        }),
{
    lemma_array_dims(ty, span);
    let dims = data_type_dims(r.spec_ty_int(ty, span));
    let ad = array_dims(ty, span);
    let bounds = array_bounds(ty);
    match element_ty(ty) {
        IntTy::SimpleVec(w, _, _) => {
            let last = literal_dim(w - 1, 0, span);
            assert(dims == ad.push(last));
            lemma_int32_value(w - 1);
            lemma_int32_value(0);
            assert(const_value(int_literal(int32(w - 1), false, span)) == Some(w - 1));
            assert(const_value(int_literal(int32(0), false, span)) == Some(0int));
            assert(dim_bounds(dims[bounds.len() as int]) == Some((w - 1, 0int)));
            assert forall|k: int| 0 <= k < bounds.len() implies dim_bounds(#[trigger] dims[k]) == Some(bounds[k]) by {
                assert(dims[k] == ad[k]);
            }
        },
        IntTy::Array(_, _, _) => {
            lemma_element_not_array(ty);
        },
        _ => {
            assert(dims == ad);
        },
    }
}

proof fn lemma_element_not_array(ty: IntTy)
    ensures
        !(element_ty(ty) is Array),
    decreases ty,
{
    match ty {
        IntTy::Array(e, _, _) => lemma_element_not_array(*e),
        _ => {},
    }
}

/// A reference to a struct type names, in the package `global_types` that
/// opens the first unit, the typedef written for the first struct type of
/// the design that is the same type; written after the type declarations,
/// the reference is qualified by that package.
pub proof fn law_struct_reference_resolves(r: Reconstructor, s: Struct, span: Span)
    requires
        struct_views(*r.source).contains(view_struct(s)),
    ensures
        ({
            let pos = r.struct_pos(s);
            let pkg = r.spec_global_pkg()->PkgDecl_0;
            let q = r.qualified();
            &&& 0 <= pos < r.source.structs@.len()
            &&& view_struct(r.source.structs@[pos]) == view_struct(s)
            &&& forall|j: int| 0 <= j < pos ==> view_struct(#[trigger] r.source.structs@[j]) != view_struct(s)
            &&& pkg.name == unspanned_ident(global_pkg_name())
            &&& r.spec_reconstruct()[0][0] == r.spec_global_pkg()
            &&& pkg.items[r.source.enums@.len() + pos] matches SpecItem::Typedef(t, name, _)
            &&& t.value == SpecDataTypeKind::Aggr(r.spec_struct(r.source.structs@[pos]), Seq::empty())
            &&& q.spec_ty_int(IntTy::Struct(Box::new(s)), span).value == SpecDataTypeKind::HierName(
                Some(SpecScope::Name(None, pkg.name)),
                *name,
                Seq::<SpecDim>::empty(),
            )
        }),
{
    let views = struct_views(*r.source);
    let pos = r.struct_pos(s);
    let k = choose|k: int| 0 <= k < views.len() && views[k] == view_struct(s);
    lemma_exists_first(views, view_struct(s), k);
    assert(is_first_index(views, view_struct(s), pos));
    assert forall|j: int| 0 <= j < pos implies view_struct(#[trigger] r.source.structs@[j]) != view_struct(s) by {
        assert(views[j] == view_struct(r.source.structs@[j]));
    }
    assert(array_dims(IntTy::Struct(Box::new(s)), span) =~= Seq::empty());
}

/// A reference to an enum type names, in the package `global_types` that
/// opens the first unit, the typedef written for the first enum type of the
/// design that is the same type; written after the type declarations, the
/// reference is qualified by that package.
pub proof fn law_enum_reference_resolves(r: Reconstructor, e: Enum, span: Span)
    requires
        enum_views(*r.source).contains(view_enum(e)),
    ensures
        ({
            let pos = r.enum_pos(e);
            let pkg = r.spec_global_pkg()->PkgDecl_0;
            let q = r.qualified();
            &&& 0 <= pos < r.source.enums@.len()
            &&& view_enum(r.source.enums@[pos]) == view_enum(e)
            &&& forall|j: int| 0 <= j < pos ==> view_enum(#[trigger] r.source.enums@[j]) != view_enum(e)
            &&& pkg.name == unspanned_ident(global_pkg_name())
            &&& r.spec_reconstruct()[0][0] == r.spec_global_pkg()
            &&& pkg.items[pos] matches SpecItem::Typedef(t, name, _)
            &&& t.value == SpecDataTypeKind::Enum(r.spec_enum(r.source.enums@[pos], name.value), Seq::empty())
            &&& q.spec_ty_int(IntTy::Enum(Box::new(e)), span).value == SpecDataTypeKind::HierName(
                Some(SpecScope::Name(None, pkg.name)),
                *name,
                Seq::<SpecDim>::empty(),
            )
        }),
{
    let views = enum_views(*r.source);
    let pos = r.enum_pos(e);
    let k = choose|k: int| 0 <= k < views.len() && views[k] == view_enum(e);
    lemma_exists_first(views, view_enum(e), k);
    assert(is_first_index(views, view_enum(e), pos));
    assert forall|j: int| 0 <= j < pos implies view_enum(#[trigger] r.source.enums@[j]) != view_enum(e) by {
        assert(views[j] == view_enum(r.source.enums@[j]));
    }
    assert(array_dims(IntTy::Enum(Box::new(e)), span) =~= Seq::empty());
}

/// The parameter written for an element of an enum type refers, through
/// `global_types`, to the member of that type's typedef that stands for the
/// element, and that member holds the element's value.
pub proof fn law_enum_element_resolves(r: Reconstructor, e: Enum, index: usize)
    requires
        enum_elem_ok(*r.source, e, index),
    ensures
        ({
            let pos = r.enum_pos(e);
            let d = r.source.enums@[pos];
            let pkg = r.spec_global_pkg()->PkgDecl_0;
            let param = r.spec_enum_elem(e, index)->ParamDecl_0;
            &&& view_enum(d) == view_enum(e)
            &&& pkg.items[pos] matches SpecItem::Typedef(t, _, _)
            &&& t.value matches SpecDataTypeKind::Enum(decl, _)
            &&& param.list[0].name == view_ident(e.elements@[index as int].0)
            &&& param.list[0].init == Some(Box::new(Spanned {
                value: SpecExprKind::HierName(
                    Some(SpecScope::Name(None, pkg.name)),
                    SpecHierId::Name(unspanned_ident(decl.members[index as int].name.value)),
                ),
                span: Span::spec_none(),
            }))
            &&& decl.members[index as int].init == Some(Box::new(
                r.spec_val_int(d.base, d.elements@[index as int].1, Span::spec_none()),
            ))
        }),
{
    let views = enum_views(*r.source);
    let pos = r.enum_pos(e);
    let k = choose|k: int| 0 <= k < views.len() && views[k] == view_enum(e);
    lemma_exists_first(views, view_enum(e), k);
    let d = r.source.enums@[pos];
    assert(is_first_index(views, view_enum(e), pos));
    assert(views[pos] == view_enum(d));
    assert(view_enum(d) == view_enum(e));
    assert(view_enum(d).elements.len() == d.elements@.len());
    assert(view_enum(d).elements[index as int] == view_element(d.elements@[index as int]));
    assert(view_enum(e).elements[index as int] == view_element(e.elements@[index as int]));
    assert(d.elements@[index as int].0.value@ == e.elements@[index as int].0.value@);
}

/// The design is written whole: one unit for the packages, then one unit
/// for each compilation unit, each holding the items written for the
/// unit's items in order; the first unit holds `global_types` and then each
/// package of the design, under its name, in order.
pub proof fn law_reconstruct_keeps_units(r: Reconstructor)
    ensures
        ({
            let out = r.spec_reconstruct();
            let q = r.qualified();
            &&& out.len() == r.source.units@.len() + 1
            &&& out[0].len() == r.source.pkgs@.len() + 1
            &&& forall|i: int| 0 <= i < r.source.pkgs@.len() ==> (#[trigger] out[0][i + 1]) == q.spec_pkg(r.source.pkgs@[i])
            &&& forall|i: int| 0 <= i < r.source.pkgs@.len() ==>
                (#[trigger] q.spec_pkg(r.source.pkgs@[i]))->PkgDecl_0.name == view_ident(r.source.pkgs@[i].name)
            &&& forall|i: int| 0 <= i < r.source.units@.len() ==> (#[trigger] out[i + 1]) == q.spec_items(
                r.source.units@[i].items@,
                0,
                r.source.units@[i].items@.len() as int,
            )
        }),
{
}

/// The data type written for a bit or a vector keeps its kind and its
/// signing: it is a `bit` type exactly when the type is two-state, and it is
/// signed exactly when the type is signed, inside any number of arrays.
pub proof fn law_vector_kind_and_signing(r: Reconstructor, ty: IntTy, span: Span)
    requires
        int_ty_ok(*r.source, ty),
    ensures
        match element_ty(ty) {
            IntTy::Logic(two_state, sign) => r.spec_ty_int(ty, span).value matches SpecDataTypeKind::IntVec(k, s, _)
                && (k == IntVecTy::Bit <==> two_state) && (k == IntVecTy::Bit || k == IntVecTy::Logic)
                && (s == Signing::Signed <==> sign),
            IntTy::SimpleVec(_, two_state, sign) => r.spec_ty_int(ty, span).value matches SpecDataTypeKind::IntVec(k, s, _)
                && (k == IntVecTy::Bit <==> two_state) && (k == IntVecTy::Bit || k == IntVecTy::Logic)
                && (s == Signing::Signed <==> sign),
            _ => true,
        },
        r.spec_ty_int(ty, span).span == span,
{
}

/// A reference to a struct or enum type is written as a name, qualified by
/// the package `global_types` exactly when the reconstructor qualifies, and
/// bare otherwise.
pub proof fn law_type_reference_qualified(r: Reconstructor, ty: IntTy, span: Span)
    requires
        int_ty_ok(*r.source, ty),
        element_ty(ty) is Struct || element_ty(ty) is Enum,
    ensures
        r.spec_ty_int(ty, span).value matches SpecDataTypeKind::HierName(scope, name, _) && {
            &&& r.global_qualify ==> scope == Some(
                SpecScope::Name(None, SpecIdent { value: "global_types"@, span: Span::spec_none() }),
            )
            &&& !r.global_qualify ==> scope is None
            &&& name.span == Span::spec_none()
        },
{
}

/// The value written for a type parameter is the data type that the same
/// reconstructor writes for that type, so its references are qualified just
/// as the reconstructor stands: a reference to a struct or enum type in it
/// is qualified by `global_types` exactly when the reconstructor qualifies.
pub proof fn law_type_value_is_written_type(r: Reconstructor, t: Ty, span: Span)
    requires
        ty_ok(*r.source, t),
    ensures
        r.spec_val(Ty::Type, Val::Type(t), span) == (Spanned {
            value: SpecExprKind::Type(Box::new(r.spec_ty(t, span).0)),
            span,
        }),
        t matches Ty::Int(it) ==> r.spec_ty(t, span).0 == r.spec_ty_int(it, span),
        t matches Ty::Int(it) ==> r.qualified().spec_val(Ty::Type, Val::Type(t), span).value->Type_0 == Box::new(
            r.qualified().spec_ty_int(it, span),
        ),
        t matches Ty::Int(it) ==> ((element_ty(it) is Struct || element_ty(it) is Enum) ==> (
        r.spec_val(Ty::Type, Val::Type(t), span).value->Type_0.value matches SpecDataTypeKind::HierName(scope, _, _)
            && (r.global_qualify <==> scope == Some(
            SpecScope::Name(None, SpecIdent { value: "global_types"@, span: Span::spec_none() }),
        )) && (!r.global_qualify <==> scope is None))),
{
    if let Ty::Int(it) = t {
        if element_ty(it) is Struct || element_ty(it) is Enum {
            law_type_reference_qualified(r, it, span);
        }
    }
}

/// A constant of a four-state vector type is written as a sized literal of
/// that very constant; a constant of an enum type is that literal cast to the
/// data type written for the enum type.
pub proof fn law_int_value_written(r: Reconstructor, ty: IntTy, v: LogicVec, span: Span)
    requires
        val_int_ok(*r.source, ty),
    ensures
        ty is SimpleVec ==> r.spec_val_int(ty, v, span) == int_literal(view_logic_vec(v), true, span),
        ty is Enum ==> r.spec_val_int(ty, v, span) == (Spanned {
            value: SpecExprKind::TypeCast(
                Box::new(Spanned { value: SpecExprKind::Type(Box::new(r.spec_ty_int(ty, span))), span }),
                Box::new(int_literal(view_logic_vec(v), true, span)),
            ),
            span,
        }),
        r.spec_val(Ty::Int(ty), Val::Int(v), span) == r.spec_val_int(ty, v, span),
        const_value(int_literal(view_logic_vec(v), true, span)) == Some(view_logic_vec(v).value()),
{
}

/// A string value is written as a string literal of the same text.
pub proof fn law_string_value_written(r: Reconstructor, n: usize, s: String, span: Span)
    ensures
        r.spec_val(Ty::FixStr(n), Val::FixStr(s), span) == (Spanned {
            value: SpecExprKind::Literal(Spanned { value: SpecTokenKind::StringLiteral(s@), span }),
            span,
        }),
{
}

/// The expression written for an elaborated expression keeps its shape: a
/// name stays the same name under the same scope, and a unary operator stays
/// the same operator, at the same place, over the expression written for its
/// operand.
pub proof fn law_expr_kept(e: ir::Expr)
    requires
        expr_ok(e),
    ensures
        spec_expr(e).span == e.span,
        e.value matches ir::ExprKind::HierName(scope, name) ==> spec_expr(e).value == SpecExprKind::HierName(
            view_opt_scope(scope),
            view_hier_id(name.value),
        ),
        e.value matches ir::ExprKind::Unary(op, inner) ==> spec_expr(e).value == SpecExprKind::Unary(
            op,
            Box::new(spec_expr(*inner)),
        ),
        e.value is Unary ==> spec_expr(e).value is Unary,
        e.value is HierName ==> spec_expr(e).value is HierName,
{
}

/// The declaration written for a struct type is a packed struct, signed
/// exactly when the type is signed, with one member for each member of the
/// type, in order: of the data type written for the member's type, under
/// the member's name, with a default value exactly when the member has one.
pub proof fn law_struct_decl_kept(r: Reconstructor, s: Struct)
    ensures
        ({
            let d = r.spec_struct(s);
            &&& d.kind == AggrType::Struct
            &&& d.packed
            &&& (d.sign == Signing::Signed <==> s.sign)
            &&& d.members.len() == s.members@.len()
            &&& forall|i: int| 0 <= i < s.members@.len() ==> {
                let m = #[trigger] d.members[i];
                let (ty, name, init) = s.members@[i];
                &&& m.ty == r.spec_ty_int(ty, Span::spec_none())
                &&& m.list.len() == 1
                &&& m.list[0].name == view_ident(name)
                &&& m.list[0].dim.len() == 0
                &&& (m.list[0].init is Some <==> init is Some)
                &&& init matches Some(v) ==> m.list[0].init == Some(Box::new(r.spec_val_int(ty, v, Span::spec_none())))
            }
        }),
{
}

/// The declaration written for an enum type has the data type written for
/// its base type, and one member for each element, in order: named by the
/// prefix, `_` and the element's name, at the element's place, with the
/// element's value written as a constant of the base type.
pub proof fn law_enum_decl_kept(r: Reconstructor, e: Enum, prefix: Seq<char>)
    ensures
        ({
            let d = r.spec_enum(e, prefix);
            &&& d.ty == Some(Box::new(r.spec_ty_int(e.base, Span::spec_none())))
            &&& d.members.len() == e.elements@.len()
            &&& forall|i: int| 0 <= i < e.elements@.len() ==> {
                let m = #[trigger] d.members[i];
                let (name, v) = e.elements@[i];
                &&& m.name.value == prefix + "_"@ + name.value@
                &&& m.name.span == name.span
                &&& m.dim.len() == 0
                &&& m.init == Some(Box::new(r.spec_val_int(e.base, v, Span::spec_none())))
            }
        }),
{
}

proof fn lemma_leading_prefix(s: Seq<HierItem>, ports: bool)
    ensures
        leading_count(s, ports) <= s.len(),
        forall|j: int| 0 <= j < leading_count(s, ports) ==> leading_kind(#[trigger] s[j], ports),
    decreases s.len(),
{
    if s.len() > 0 && leading_kind(s[0], ports) {
        let t = s.subrange(1, s.len() as int);
        lemma_leading_prefix(t, ports);
        assert forall|j: int| 0 <= j < leading_count(s, ports) implies leading_kind(#[trigger] s[j], ports) by {
            if j > 0 {
                assert(s[j] == t[j - 1]);
            }
        }
    }
}

/// The design written for an instantiation keeps its keyword, lifetime and
/// name. It has a parameter list exactly when the instantiation opens with
/// parameters, with one declaration for each, in order, of the same keyword
/// and name. Its header has one port for each port that follows, in order:
/// a data port keeps its direction, net type, name and initial value, and an
/// interface port keeps the names of its interface, modport and port and the
/// number of its dimensions. The items after the ports are written in order.
pub proof fn law_instantiation_header_kept(r: Reconstructor, inst: hier::DesignInstantiation)
    ensures
        ({
            let items = inst.scope.items@;
            let n = num_params(items);
            let m = num_ports(items);
            let d = r.spec_instantiation(inst)->DesignDecl_0;
            &&& d.kw == inst.kw
            &&& d.lifetime == inst.lifetime
            &&& d.name == view_ident(inst.name)
            &&& n + m <= items.len()
            &&& (d.param is Some <==> n > 0)
            &&& d.param matches Some(ps) ==> (ps.len() == n && forall|i: int| 0 <= i < n ==> {
                let p = #[trigger] ps[i];
                &&& items[i] is Param
                &&& p.kw == items[i]->Param_0.kw
                &&& p.list.len() == 1
                &&& p.list[0].name == view_ident(items[i]->Param_0.name)
            })
            &&& d.port.len() == m
            &&& forall|j: int| 0 <= j < m ==> {
                let it = items[n + j];
                let p = #[trigger] d.port[j];
                &&& it is DataPort || it is InterfacePort
                &&& it matches HierItem::DataPort(dp) ==> (p matches SpecPortDecl::Data(dir, net, _, list) && dir == dp.dir
                    && net == dp.net && list.len() == 1 && list[0].name == view_ident(dp.name) && list[0].init
                    == view_opt_expr(dp.init))
                &&& it matches HierItem::InterfacePort(ip) ==> (p matches SpecPortDecl::Interface(intf, mp, list) && intf
                    == Some(Box::new(view_ident(ip.inst_name))) && (mp is Some <==> ip.modport is Some) && list.len()
                    == 1 && list[0].name == view_ident(ip.name) && list[0].dim.len() == ip.dim@.len())
            }
            &&& d.items == r.spec_items(items, (n + m) as int, items.len() as int)
        }),
{
    let items = inst.scope.items@;
    let n = num_params(items);
    let t = items.subrange(n as int, items.len() as int);
    lemma_leading_prefix(items, false);
    lemma_leading_prefix(t, true);
    let m = num_ports(items);
    assert forall|j: int| 0 <= j < m implies (#[trigger] items[n + j] is DataPort || items[n + j] is InterfacePort) by {
        assert(t[j] == items[n + j]);
        assert(leading_kind(t[j], true));
    }
}

/// Each kind of item is written as what it stands for: a parameter as one
/// parameter declaration of the same keyword and name; a type as one
/// typedef of the same name; a design as one design for each of its
/// instantiations, in order; an instance as one instantiation of the same
/// design under the same name, with as many dimensions, whose bounds denote
/// the same integers, and as many connections, each present exactly when it
/// is given; a kept item as itself; a bare name as nothing; an element of an
/// enum type as one parameter named after the element.
pub proof fn law_item_kept(r: Reconstructor, item: HierItem)
    requires
        item_ok(*r.source, item),
    ensures
        ({
            let out = r.spec_item(item);
            &&& item matches HierItem::Param(d) ==> (out.len() == 1 && (out[0] matches SpecItem::ParamDecl(p)
                && p.kw == d.kw && p.list.len() == 1 && p.list[0].name == view_ident(d.name)))
            &&& item matches HierItem::Type(d) ==> (out.len() == 1 && (out[0] matches SpecItem::Typedef(t, name, _)
                && *name == view_ident(d.name) && *t == r.spec_ty(d.ty, Span::spec_none()).0))
            &&& item matches HierItem::Design(d) ==> (out.len() == d.instances@.len() && forall|i: int|
                0 <= i < d.instances@.len() ==> #[trigger] out[i] == r.spec_instantiation(d.instances@[i]))
            &&& item matches HierItem::Instance(d) ==> (out.len() == 1 && (out[0] matches SpecItem::HierInstantiation(h)
                && h.name == view_ident(d.inst_name) && h.inst.len() == 1 && h.inst[0].name == view_ident(d.name)
                && h.inst[0].dim.len() == d.dim@.len() && (forall|i: int| 0 <= i < d.dim@.len() ==> dim_bounds(
                #[trigger] h.inst[0].dim[i],
            ) == Some((d.dim@[i].0 as int, d.dim@[i].1 as int))) && (h.inst[0].ports matches SpecPortConn::Ordered(ps)
                && ps.len() == d.port@.len() && (forall|i: int| 0 <= i < d.port@.len() ==> (#[trigger] ps[i] is Some
                <==> d.port@[i] is Some)))))
            &&& item matches HierItem::Other(i) ==> out == seq![view_item(i)]
            &&& item is OtherName ==> out.len() == 0
            &&& item matches HierItem::Enum(e, index) ==> (out.len() == 1 && (out[0] matches SpecItem::ParamDecl(p)
                && p.kw == Keyword::Parameter && p.ty is None && p.list.len() == 1 && p.list[0].name == view_ident(
                e.elements@[index as int].0,
            )))
        }),
{
    match item {
        HierItem::Instance(d) => {
            let out = r.spec_item(item);
            assert forall|i: int| 0 <= i < d.dim@.len() implies dim_bounds(
                #[trigger] (out[0]->HierInstantiation_0).inst[0].dim[i],
            ) == Some((d.dim@[i].0 as int, d.dim@[i].1 as int)) by {
                assert(bounds_ok(d.dim@[i]));
                law_int_denotes_value(d.dim@[i].0, Span::spec_none());
                law_int_denotes_value(d.dim@[i].1, Span::spec_none());
            }
        },
        _ => {},
    }
}

/// A generate block is written as one generate `if` on a condition that
/// denotes 1, with no `else`, whose block keeps the block's name and holds
/// the items written for the block's items; a loop generate construct is
/// written as one such `if` for each of its blocks, in order.
pub proof fn law_generate_kept(r: Reconstructor, item: HierItem)
    ensures
        ({
            let out = r.spec_item(item);
            &&& item matches HierItem::GenBlock(g) ==> (out.len() == 1 && (out[0] matches SpecItem::IfGen(ig)
                && ig.else_block is None && ig.if_block.len() == 1 && const_value(ig.if_block[0].0) == Some(1int)
                && ig.if_block[0].1.name == view_opt_gen_name(g.name) && ig.if_block[0].1.items == r.spec_items(
                g.scope.items@,
                0,
                g.scope.items@.len() as int,
            )))
            &&& item matches HierItem::LoopGenBlock(l) ==> (out.len() == l.instances@.len() && forall|i: int|
                0 <= i < l.instances@.len() ==> #[trigger] out[i] == r.spec_gen_if(l.instances@[i]))
        }),
{
    let one = LogicVec::spec_from_logic_value(LogicValue::One);
    assert(one.magnitude.drop_first() =~= Seq::<u64>::empty());
    assert(limbs_value(one.magnitude.drop_first()) == 0);
    assert(one.value() == 1);
}

/// A modport is written as one modport declaration of the same name, with
/// one simple port for each of its ports, in order, of the same direction
/// and name.
pub proof fn law_modport_kept(r: Reconstructor, m: hier::ModportDecl)
    requires
        item_ok(*r.source, HierItem::Modport(m)),
    ensures
        ({
            let out = r.spec_item(HierItem::Modport(m));
            &&& out.len() == 1
            &&& out[0] matches SpecItem::ModportDecl(entries)
            &&& entries.len() == 1
            &&& entries[0].0 == view_ident(m.name)
            &&& entries[0].1.len() == m.scope.items@.len()
            &&& forall|i: int| 0 <= i < m.scope.items@.len() ==> {
                let it = m.scope.items@[i];
                &&& it is DataPort
                &&& (#[trigger] entries[0].1[i]) == SpecModportPortDecl::Simple(
                    it->DataPort_0.dir,
                    seq![SpecModportSimplePort::Named(view_ident(it->DataPort_0.name))],
                )
            }
        }),
{
}

proof fn lemma_exists_first<A>(s: Seq<A>, x: A, k: int)
    requires
        0 <= k < s.len(),
        s[k] == x,
    ensures
        is_first_index(s, x, first_index(s, x)),
    decreases k,
{
    if exists|j: int| 0 <= j < k && s[j] == x {
        let j = choose|j: int| 0 <= j < k && s[j] == x;
        lemma_exists_first(s, x, j);
    } else {
        assert(is_first_index(s, x, k));
    }
}

/// The items written for a list of items are those written for each item,
/// in order: for two adjoining stretches, the items of the whole are those
/// of the first followed by those of the second.
pub proof fn law_items_concatenate(r: Reconstructor, items: Seq<HierItem>, lo: int, mid: int, hi: int)
    requires
        0 <= lo <= mid <= hi <= items.len(),
    ensures
        r.spec_items(items, lo, hi) == r.spec_items(items, lo, mid) + r.spec_items(items, mid, hi),
    decreases hi - mid,
{
    if mid < hi {
        law_items_concatenate(r, items, lo, mid, hi - 1);
        assert(r.spec_items(items, lo, hi) =~= r.spec_items(items, lo, mid) + r.spec_items(items, mid, hi));
    } else {
        assert(r.spec_items(items, mid, hi) =~= Seq::empty());
        assert(r.spec_items(items, lo, hi) =~= r.spec_items(items, lo, mid) + r.spec_items(items, mid, hi));
    }
}

// ---------------------------------------------------------------------------
// Executable

fn numbered_name(prefix: &str, index: usize) -> (s: String)
    ensures
        s@ == prefix@ + decimal(index as nat),
{
    let mut s = String::from_str(prefix);
    push_decimal(&mut s, index);
    s
}

fn global_scope_exec() -> (s: ast::Scope)
    ensures
        view_scope(s) == global_scope(),
{
    ast::Scope::Name(None, Box::new(Ident::new_unspanned(String::from_str("global_types"))))
}

fn push_item(list: &mut Vec<Item>, x: Item)
    ensures
        view_items(*final(list)) == view_items(*old(list)).push(view_item(x)),
{
    let ghost old_list = *list;
    list.push(x);
    assert(view_items(*list) =~= view_items(old_list).push(view_item(x)));
}

/// The dimensions of an instance or interface port array.
fn bounds_dims(dim: &Vec<(i32, i32)>) -> (r: Vec<Dim>)
    requires
        forall|i: int| 0 <= i < dim@.len() ==> bounds_ok(#[trigger] dim@[i]),
    ensures
        view_dims(r) == dim@.map_values(|b: (i32, i32)| bounds_dim(b)),
{
    let mut r: Vec<Dim> = Vec::new();
    let mut i: usize = 0;
    while i < dim.len()
        invariant
            forall|i: int| 0 <= i < dim@.len() ==> bounds_ok(#[trigger] dim@[i]),
            i <= dim@.len(),
            r@.len() == i,
            forall|j: int| 0 <= j < i ==> view_dim(#[trigger] r@[j]) == bounds_dim(dim@[j]),
        decreases dim@.len() - i,
    {
        let (ub, lb) = dim[i];
        assert(bounds_ok(dim@[i as int]));
        let ub_expr = reconstruct_int(ub, Span::none());
        let lb_expr = reconstruct_int(lb, Span::none());
        r.push(Spanned::new_unspanned(DimKind::Range(Box::new(ub_expr), Box::new(lb_expr))));
        i = i + 1;
    }
    assert(view_dims(r) =~= dim@.map_values(|b: (i32, i32)| bounds_dim(b)));
    r
}

proof fn lemma_leading_count(s: Seq<HierItem>, ports: bool, k: int)
    requires
        0 <= k <= s.len(),
        forall|j: int| 0 <= j < k ==> leading_kind(#[trigger] s[j], ports),
        k == s.len() || !leading_kind(s[k], ports),
    ensures
        leading_count(s, ports) == k,
    decreases k,
{
    if k > 0 {
        let t = s.subrange(1, s.len() as int);
        assert forall|j: int| 0 <= j < k - 1 implies leading_kind(#[trigger] t[j], ports) by {
            assert(t[j] == s[j + 1]);
        }
        if k < s.len() {
            assert(t[k - 1] == s[k]);
        }
        lemma_leading_count(t, ports, k - 1);
        assert(leading_kind(s[0], ports));
    }
}

proof fn lemma_leading_at_least(s: Seq<HierItem>, ports: bool, k: int)
    requires
        0 <= k <= s.len(),
        forall|j: int| 0 <= j < k ==> leading_kind(#[trigger] s[j], ports),
    ensures
        leading_count(s, ports) >= k,
    decreases k,
{
    if k > 0 {
        let t = s.subrange(1, s.len() as int);
        assert forall|j: int| 0 <= j < k - 1 implies leading_kind(#[trigger] t[j], ports) by {
            assert(t[j] == s[j + 1]);
        }
        lemma_leading_at_least(t, ports, k - 1);
        assert(leading_kind(s[0], ports));
    }
}

proof fn lemma_first_index<A>(s: Seq<A>, x: A, i: int)
    requires
        is_first_index(s, x, i),
    ensures
        first_index(s, x) == i,
{
    let c = first_index(s, x);
    assert(is_first_index(s, x, c));
    if c < i {
        assert(s[c] != x);
    } else if c > i {
        assert(s[i] != x);
    }
}

fn int_literal_exec(v: LogicVec, sized: bool, span: Span) -> (e: Expr)
    ensures
        view_expr(e) == int_literal(view_logic_vec(v), sized, span),
{
    Spanned::new(
        ExprKind::Literal(Spanned::new(TokenKind::IntegerLiteral(LogicNumber { value: v, sized }), span)),
        span,
    )
}

/// Reconstructs the syntax of a whole elaborated design (see `Reconstructor::reconstruct`).
pub fn reconstruct(source: &Source) -> (units: Vec<Vec<Item>>)
    requires
        source_ok(*source),
    ensures
        view_units(units) == (Reconstructor { source, global_qualify: false }).spec_reconstruct(),
{
    let mut reconstructor = Reconstructor { source, global_qualify: false };
    reconstructor.reconstruct()
}

/// Given an i32, reconstruct the corresponding constant value.
pub fn reconstruct_int(val: i32, span: Span) -> (e: Expr)
    requires
        val != i32::MIN,
    ensures
        view_expr(e) == spec_reconstruct_int(val, span),
{
    let magnitude: i32 = if val < 0 { -val } else { val };
    let expr = int_literal_exec(LogicVec::from(32, true, magnitude as i64), false, span);
    if val >= 0 {
        expr
    } else {
        Spanned::new(ExprKind::Unary(UnaryOp::Sub, Box::new(expr)), span)
    }
}

impl<'a> Reconstructor<'a> {
    fn struct_position(&self, s: &Struct) -> (pos: usize)
        requires
            struct_views(*self.source).contains(view_struct(*s)),
        ensures
            pos == self.struct_pos(*s),
            pos < self.source.structs@.len(),
    {
        let ghost views = struct_views(*self.source);
        let mut i: usize = 0;
        while i < self.source.structs.len()
            invariant
                i <= self.source.structs@.len(),
                views == struct_views(*self.source),
                views.contains(view_struct(*s)),
                forall|j: int| 0 <= j < i ==> views[j] != view_struct(*s),
            decreases self.source.structs@.len() - i,
        {
            if eq_struct(&self.source.structs[i], s) {
                proof {
                    lemma_first_index(views, view_struct(*s), i as int);
                }
                return i;
            }
            i = i + 1;
        }
        proof {
            let k = choose|k: int| 0 <= k < views.len() && views[k] == view_struct(*s);
            assert(views[k] != view_struct(*s));
        }
        0
    }

    fn enum_position(&self, e: &Enum) -> (pos: usize)
        requires
            enum_views(*self.source).contains(view_enum(*e)),
        ensures
            pos == self.enum_pos(*e),
            pos < self.source.enums@.len(),
    {
        let ghost views = enum_views(*self.source);
        let mut i: usize = 0;
        while i < self.source.enums.len()
            invariant
                i <= self.source.enums@.len(),
                views == enum_views(*self.source),
                views.contains(view_enum(*e)),
                forall|j: int| 0 <= j < i ==> views[j] != view_enum(*e),
            decreases self.source.enums@.len() - i,
        {
            if eq_enum(&self.source.enums[i], e) {
                proof {
                    lemma_first_index(views, view_enum(*e), i as int);
                }
                return i;
            }
            i = i + 1;
        }
        proof {
            let k = choose|k: int| 0 <= k < views.len() && views[k] == view_enum(*e);
            assert(views[k] != view_enum(*e));
        }
        0
    }

    /// Given an integral type, reconstruct its data type.
    pub fn reconstruct_ty_int(&self, ty: &IntTy, span: Span) -> (d: DataType)
        requires
            int_ty_ok(*self.source, *ty),
        ensures
            view_data_type(d) == self.spec_ty_int(*ty, span),
    {
        let mut inner: &IntTy = ty;
        let mut dim: Vec<Dim> = Vec::new();
        loop
            invariant
                int_ty_ok(*self.source, *inner),
                element_ty(*inner) == element_ty(*ty),
                array_dims(*ty, span) == view_dims(dim) + array_dims(*inner, span),
            ensures
                int_ty_ok(*self.source, *inner),
                element_ty(*inner) == element_ty(*ty),
                array_dims(*ty, span) == view_dims(dim) + array_dims(*inner, span),
                !(*inner is Array),
            decreases *inner,
        {
            match inner {
                IntTy::Array(element, ub, lb) => {
                    let ghost old_dim = dim;
                    // Synthesise literal expressions from the constant bounds
                    let a_expr = int_literal_exec(LogicVec::from(32, true, *ub as i64), false, span);
                    let b_expr = int_literal_exec(LogicVec::from(32, true, *lb as i64), false, span);
                    let d = Spanned::new(DimKind::Range(Box::new(a_expr), Box::new(b_expr)), span);
                    assert(view_dim(d) == literal_dim(*ub as int, *lb as int, span));
                    dim.push(d);
                    assert(view_dims(dim) =~= view_dims(old_dim).push(view_dim(d)));
                    inner = &**element;
                    assert(array_dims(*ty, span) =~= view_dims(dim) + array_dims(*inner, span));
                },
                _ => break,
            }
        }
        assert(array_dims(*ty, span) =~= view_dims(dim));
        let kind = match inner {
            IntTy::Array(..) => {
                proof {
                    assert(false);
                }
                DataTypeKind::Type
            },
            IntTy::Logic(two_state, sign) => DataTypeKind::IntVec(
                if *two_state { IntVecTy::Bit } else { IntVecTy::Logic },
                if *sign { Signing::Signed } else { Signing::Unsigned },
                dim,
            ),
            IntTy::SimpleVec(width, two_state, sign) => {
                let ghost old_dim = dim;
                let a_expr = int_literal_exec(LogicVec::from_unsigned(32, true, (*width - 1) as u64), false, span);
                let b_expr = int_literal_exec(LogicVec::from(32, true, 0), false, span);
                let d = Spanned::new(DimKind::Range(Box::new(a_expr), Box::new(b_expr)), span);
                assert(view_dim(d) == literal_dim(*width - 1, 0, span));
                dim.push(d);
                assert(view_dims(dim) =~= view_dims(old_dim).push(view_dim(d)));
                DataTypeKind::IntVec(
                    if *two_state { IntVecTy::Bit } else { IntVecTy::Logic },
                    if *sign { Signing::Signed } else { Signing::Unsigned },
                    dim,
                )
            },
            IntTy::Struct(s) => {
                let pos = self.struct_position(&**s);
                DataTypeKind::HierName(
                    if self.global_qualify { Some(global_scope_exec()) } else { None },
                    Ident::new_unspanned(numbered_name("struct_", pos)),
                    dim,
                )
            },
            IntTy::Enum(e) => {
                let pos = self.enum_position(&**e);
                DataTypeKind::HierName(
                    if self.global_qualify { Some(global_scope_exec()) } else { None },
                    Ident::new_unspanned(numbered_name("enum_", pos)),
                    dim,
                )
            },
        };
        Spanned::new(kind, span)
    }

    /// Given a type, reconstruct its data type and unpacked dimensions.
    pub fn reconstruct_ty(&self, ty: &Ty, span: Span) -> (r: (DataType, Vec<Dim>))
        requires
            ty_ok(*self.source, *ty),
        ensures
            view_data_type(r.0) == self.spec_ty(*ty, span).0,
            view_dims(r.1) == self.spec_ty(*ty, span).1,
            r.1@.len() == 0,
    {
        let kind = match ty {
            Ty::Type => DataTypeKind::Type,
            Ty::Int(subty) => {
                let d = self.reconstruct_ty_int(subty, span);
                let v: Vec<Dim> = Vec::new();
                assert(view_dims(v) =~= Seq::empty());
                return (d, v);
            },
            Ty::String => DataTypeKind::String,
            Ty::FixStr(_) => {
                proof {
                    assert(false);
                }
                DataTypeKind::String
            },
        };
        let v: Vec<Dim> = Vec::new();
        assert(view_dims(v) =~= Seq::empty());
        (Spanned::new(kind, span), v)
    }

    /// Given an integral type and a constant of it, reconstruct the expression of the constant.
    pub fn reconstruct_val_int(&self, ty: &IntTy, val: &LogicVec, span: Span) -> (e: Expr)
        requires
            val_int_ok(*self.source, *ty),
        ensures
            view_expr(e) == self.spec_val_int(*ty, *val, span),
    {
        match ty {
            IntTy::Enum(_) => {
                let t = self.reconstruct_ty_int(ty, span);
                let v = self.reconstruct_const(val, span);
                let te = Spanned::new(ExprKind::Type(Box::new(t)), span);
                assert(view_expr(te) == Spanned {
                    value: SpecExprKind::Type(Box::new(self.spec_ty_int(*ty, span))),
                    span,
                });
                Spanned::new(ExprKind::TypeCast(Box::new(te), Box::new(v)), span)
            },
            // A four-state vector
            _ => self.reconstruct_const(val, span),
        }
    }

    /// Given a type and a value of it, reconstruct the expression of the value.
    pub fn reconstruct_val(&self, ty: &Ty, val: &Val, span: Span) -> (e: Expr)
        requires
            val_ok(*self.source, *ty, *val),
        ensures
            view_expr(e) == self.spec_val(*ty, *val, span),
    {
        match (ty, val) {
            (Ty::Type, Val::Type(t)) => {
                let (t, _) = self.reconstruct_ty(t, span);
                Spanned::new(ExprKind::Type(Box::new(t)), span)
            },
            (Ty::Int(subty), Val::Int(v)) => self.reconstruct_val_int(subty, v, span),
            (Ty::FixStr(_), Val::FixStr(v)) => Spanned::new(
                ExprKind::Literal(Spanned::new(TokenKind::StringLiteral(v.clone()), span)),
                span,
            ),
            _ => {
                proof {
                    assert(false);
                }
                Spanned::new(ExprKind::Type(Box::new(Spanned::new(DataTypeKind::Type, span))), span)
            },
        }
    }

    /// Given an elaborated expression, reconstruct its syntax.
    pub fn reconstruct_expr(&self, expr: &ir::Expr) -> (e: Expr)
        requires
            expr_ok(*expr),
        ensures
            view_expr(e) == spec_expr(*expr),
        decreases expr,
    {
        let kind = match &expr.value {
            ir::ExprKind::HierName(scope, name) => ExprKind::HierName(copy_opt_scope(scope), copy_hier_id(&name.value)),
            ir::ExprKind::Unary(op, inner) => ExprKind::Unary(*op, Box::new(self.reconstruct_expr(&**inner))),
            _ => {
                proof {
                    assert(false);
                }
                ExprKind::Type(Box::new(Spanned::new(DataTypeKind::Type, expr.span)))
            },
        };
        Spanned::new(kind, expr.span)
    }

    /// Given an enum type, reconstruct its declaration, naming each element
    /// `<prefix>_<name>`.
    pub fn reconstruct_enum(&self, enu: &Enum, prefix: &str) -> (r: EnumDecl)
        requires
            enum_ok(*self.source, *enu),
        ensures
            view_enum_decl(r) == self.spec_enum(*enu, prefix@),
    {
        let base = self.reconstruct_ty_int(&enu.base, Span::none());
        let mut members: Vec<DeclAssign> = Vec::new();
        let mut i: usize = 0;
        while i < enu.elements.len()
            invariant
                enum_ok(*self.source, *enu),
                i <= enu.elements@.len(),
                members@.len() == i,
                forall|j: int| 0 <= j < i ==> view_decl_assign(#[trigger] members@[j])
                    == self.spec_enum_member(enu.base, enu.elements@[j], prefix@),
            decreases enu.elements@.len() - i,
        {
            let (name, val) = &enu.elements[i];
            let mut text = String::from_str(prefix);
            text.append("_");
            text.append(name.value.as_str());
            let init = self.reconstruct_val_int(&enu.base, val, Span::none());
            let dim: Vec<Dim> = Vec::new();
            assert(view_dims(dim) =~= Seq::empty());
            let d = DeclAssign { name: Ident::new(text, name.span), dim, init: Some(Box::new(init)) };
            assert(view_decl_assign(d) == self.spec_enum_member(enu.base, enu.elements@[i as int], prefix@));
            members.push(d);
            i = i + 1;
        }
        let r = EnumDecl { ty: Some(Box::new(base)), members };
        assert(view_decl_assigns(r.members) =~= self.spec_enum(*enu, prefix@).members);
        r
    }

    /// Given a struct type, reconstruct its declaration.
    pub fn reconstruct_struct(&self, struc: &Struct) -> (r: AggrDecl)
        requires
            struct_ok(*self.source, *struc),
        ensures
            view_aggr_decl(r) == self.spec_struct(*struc),
    {
        let mut members: Vec<AggrMember> = Vec::new();
        let mut i: usize = 0;
        while i < struc.members.len()
            invariant
                struct_ok(*self.source, *struc),
                i <= struc.members@.len(),
                members@.len() == i,
                forall|j: int| 0 <= j < i ==> view_aggr_member(#[trigger] members@[j])
                    == self.spec_struct_member(struc.members@[j]),
            decreases struc.members@.len() - i,
        {
            let (ty, name, init) = &struc.members[i];
            assert(member_ok(*self.source, struc.members@[i as int]));
            let astty = self.reconstruct_ty_int(ty, Span::none());
            let init = match init {
                Some(init) => Some(Box::new(self.reconstruct_val_int(ty, init, Span::none()))),
                None => None,
            };
            let dim: Vec<Dim> = Vec::new();
            assert(view_dims(dim) =~= Seq::empty());
            let mut list: Vec<DeclAssign> = Vec::new();
            list.push(DeclAssign { name: copy_ident(name), dim, init });
            let m = AggrMember { ty: astty, list };
            assert(view_decl_assigns(m.list) =~= self.spec_struct_member(struc.members@[i as int]).list);
            members.push(m);
            i = i + 1;
        }
        let r = AggrDecl {
            kind: AggrType::Struct,
            packed: true,
            sign: if struc.sign { Signing::Signed } else { Signing::Unsigned },
            members,
        };
        assert(view_aggr_members(r.members) =~= self.spec_struct(*struc).members);
        r
    }

    fn reconstruct_param_decl(&self, decl: &hier::ParamDecl) -> (r: ast::ParamDecl)
        requires
            param_ok(*self.source, *decl),
        ensures
            view_param_decl(r) == self.spec_param_decl(*decl),
    {
        let (ty, dim) = self.reconstruct_ty(&decl.ty, Span::none());
        let expr = self.reconstruct_val(&decl.ty, &decl.init, Span::none());
        let mut list: Vec<DeclAssign> = Vec::new();
        list.push(DeclAssign { name: copy_ident(&decl.name), dim, init: Some(Box::new(expr)) });
        let r = ast::ParamDecl { kw: decl.kw, ty: Some(Box::new(ty)), list };
        assert(view_decl_assigns(r.list) =~= self.spec_param_decl(*decl).list);
        r
    }

    fn reconstruct_port(&self, item: &HierItem) -> (r: ast::PortDecl)
        requires
            port_ok(*self.source, *item),
        ensures
            view_port_decl(r) == self.spec_port(*item),
    {
        match item {
            HierItem::DataPort(decl) => {
                let (ty, dim) = self.reconstruct_ty(&decl.ty, Span::none());
                let mut list: Vec<DeclAssign> = Vec::new();
                list.push(DeclAssign { name: copy_ident(&decl.name), dim, init: copy_opt_expr(&decl.init) });
                assert(view_decl_assigns(list) =~= seq![view_decl_assign(list@[0])]);
                ast::PortDecl::Data(decl.dir, decl.net, Box::new(ty), list)
            },
            HierItem::InterfacePort(decl) => {
                let intf = Some(Box::new(copy_ident(&decl.inst_name)));
                let modport = match &decl.modport {
                    Some(m) => Some(Box::new(copy_ident(m))),
                    None => None,
                };
                let dim = bounds_dims(&decl.dim);
                let mut list: Vec<DeclAssign> = Vec::new();
                list.push(DeclAssign { name: copy_ident(&decl.name), dim, init: None });
                assert(view_decl_assigns(list) =~= seq![view_decl_assign(list@[0])]);
                ast::PortDecl::Interface(intf, modport, list)
            },
            _ => {
                proof {
                    assert(false);
                }
                ast::PortDecl::Interface(None, None, Vec::new())
            },
        }
    }

    fn reconstruct_instance(&self, decl: &hier::InstanceDecl) -> (r: Item)
        requires
            item_ok(*self.source, HierItem::Instance(*decl)),
        ensures
            view_item(r) == self.spec_instance(*decl),
    {
        let dim = bounds_dims(&decl.dim);
        let mut ports: Vec<Option<Box<Expr>>> = Vec::new();
        let mut i: usize = 0;
        while i < decl.port.len()
            invariant
                item_ok(*self.source, HierItem::Instance(*decl)),
                i <= decl.port@.len(),
                ports@.len() == i,
                forall|j: int| 0 <= j < i ==> view_opt_expr(#[trigger] ports@[j]) == (match decl.port@[j] {
                    Some(e) => Some(Box::new(spec_expr(e))),
                    None => None::<Box<SpecExpr>>,
                }),
            decreases decl.port@.len() - i,
        {
            let p = match &decl.port[i] {
                Some(port) => {
                    assert(decl.port@[i as int] matches Some(e) ==> expr_ok(e));
                    Some(Box::new(self.reconstruct_expr(port)))
                },
                None => None,
            };
            ports.push(p);
            i = i + 1;
        }
        let mut inst: Vec<ast::HierInst> = Vec::new();
        inst.push(ast::HierInst {
            name: copy_ident(&decl.name),
            dim,
            ports: ast::PortConn::Ordered(ports),
        });
        let r = ast::HierInstantiation { name: copy_ident(&decl.inst_name), inst };
        assert(view_opt_exprs(ports) =~= decl.port@.map_values(|p: Option<ir::Expr>| match p {
            Some(e) => Some(Box::new(spec_expr(e))),
            None => None,
        }));
        assert(view_hier_insts(r.inst) =~= seq![view_hier_inst(r.inst@[0])]);
        Item::HierInstantiation(Box::new(r))
    }

    fn reconstruct_modport(&self, modport: &hier::ModportDecl) -> (r: Item)
        requires
            item_ok(*self.source, HierItem::Modport(*modport)),
        ensures
            view_item(r) == self.spec_item(HierItem::Modport(*modport))[0],
    {
        let mut decl_list: Vec<ast::ModportPortDecl> = Vec::new();
        let mut i: usize = 0;
        while i < modport.scope.items.len()
            invariant
                item_ok(*self.source, HierItem::Modport(*modport)),
                i <= modport.scope.items@.len(),
                decl_list@.len() == i,
                forall|j: int| 0 <= j < i ==> view_modport_port_decl(#[trigger] decl_list@[j])
                    == Self::spec_modport_port(modport.scope.items@[j]),
            decreases modport.scope.items@.len() - i,
        {
            assert(modport.scope.items@[i as int] is DataPort);
            let d = match &modport.scope.items[i] {
                HierItem::DataPort(item) => {
                    let mut ports: Vec<ast::ModportSimplePort> = Vec::new();
                    ports.push(ast::ModportSimplePort::Named(copy_ident(&item.name)));
                    assert(view_simple_ports(ports) =~= seq![SpecModportSimplePort::Named(view_ident(item.name))]);
                    ast::ModportPortDecl::Simple(item.dir, ports)
                },
                _ => {
                    proof {
                        assert(false);
                    }
                    ast::ModportPortDecl::Simple(PortDir::Input, Vec::new())
                },
            };
            decl_list.push(d);
            i = i + 1;
        }
        assert(view_modport_port_decls(decl_list) =~= modport.scope.items@.map_values(
            |it: HierItem| Self::spec_modport_port(it),
        ));
        let mut entries: Vec<(Ident, Vec<ast::ModportPortDecl>)> = Vec::new();
        entries.push((copy_ident(&modport.name), decl_list));
        let r = Item::ModportDecl(entries);
        assert(view_modport_entries(entries) =~= seq![view_modport_entry(entries@[0])]);
        r
    }

    fn reconstruct_enum_elem(&self, enu: &Enum, index: usize) -> (r: Item)
        requires
            enum_elem_ok(*self.source, *enu, index),
        ensures
            view_item(r) == self.spec_enum_elem(*enu, index),
    {
        let enum_index = self.enum_position(enu);
        let element_name = copy_ident(&enu.elements[index].0);
        let mut text = numbered_name("enum_", enum_index);
        text.append("_");
        text.append(element_name.value.as_str());
        let expr = Spanned::new_unspanned(ExprKind::HierName(
            Some(global_scope_exec()),
            HierId::Name(Box::new(Ident::new_unspanned(text))),
        ));
        let dim: Vec<Dim> = Vec::new();
        assert(view_dims(dim) =~= Seq::empty());
        let mut list: Vec<DeclAssign> = Vec::new();
        list.push(DeclAssign { name: element_name, dim, init: Some(Box::new(expr)) });
        let r = ast::ParamDecl { kw: Keyword::Parameter, ty: None, list };
        assert(view_decl_assigns(r.list) =~= seq![view_decl_assign(r.list@[0])]);
        Item::ParamDecl(Box::new(r))
    }

    /// Appends the items written for `items[lo..]` to `list`.
    fn reconstruct_items(&self, items: &Vec<HierItem>, lo: usize, list: &mut Vec<Item>)
        requires
            lo <= items@.len(),
            forall|j: int| lo <= j < items@.len() ==> item_ok(*self.source, #[trigger] items@[j]),
        ensures
            view_items(*final(list)) == view_items(*old(list)) + self.spec_items(items@, lo as int, items@.len() as int),
        decreases items, 0int,
    {
        let ghost start = view_items(*list);
        let mut i: usize = lo;
        assert(self.spec_items(items@, lo as int, lo as int) =~= Seq::empty());
        while i < items.len()
            invariant
                lo <= i <= items@.len(),
                forall|j: int| lo <= j < items@.len() ==> item_ok(*self.source, #[trigger] items@[j]),
                view_items(*list) == start + self.spec_items(items@, lo as int, i as int),
            decreases items@.len() - i,
        {
            proof {
                axiom_vec_index_decreases(*items, i as int);
            }
            self.reconstruct_item(&items[i], list);
            assert(self.spec_items(items@, lo as int, i + 1) == self.spec_items(items@, lo as int, i as int)
                + self.spec_item(items@[i as int]));
            assert(view_items(*list) =~= start + self.spec_items(items@, lo as int, i + 1));
            i = i + 1;
        }
    }

    fn reconstruct_gen_if(&self, genblk: &hier::GenBlock) -> (r: Item)
        requires
            forall|j: int| 0 <= j < genblk.scope.items@.len() ==> item_ok(*self.source, #[trigger] genblk.scope.items@[j]),
        ensures
            view_item(r) == self.spec_gen_if(*genblk),
        decreases genblk, 1int,
    {
        // Reconstruct all interior items
        let mut sublist: Vec<Item> = Vec::new();
        assert(view_items(sublist) =~= Seq::empty());
        self.reconstruct_items(&genblk.scope.items, 0, &mut sublist);
        assert(view_items(sublist) =~= self.spec_items(genblk.scope.items@, 0, genblk.scope.items@.len() as int));
        let cond = self.reconstruct_const(&LogicVec::from_logic_value(LogicValue::One), Span::none());
        let block = ast::GenBlock { name: ast::copy_opt_gen_name(&genblk.name), items: sublist };
        let mut if_block: Vec<(Expr, ast::GenBlock)> = Vec::new();
        if_block.push((cond, block));
        let r = ast::IfGen { if_block, else_block: None };
        assert(view_cond_blocks(r.if_block) =~= seq![view_cond_block(r.if_block@[0])]);
        Item::IfGen(Box::new(r))
    }

    /// Given an item of a scope, appends the items written for it to `list`.
    pub fn reconstruct_item(&self, item: &HierItem, list: &mut Vec<Item>)
        requires
            item_ok(*self.source, *item),
        ensures
            view_items(*final(list)) == view_items(*old(list)) + self.spec_item(*item),
        decreases item, 1int,
    {
        let ghost start = view_items(*list);
        match item {
            HierItem::Param(decl) => {
                let d = self.reconstruct_param_decl(decl);
                push_item(list, Item::ParamDecl(Box::new(d)));
            },
            HierItem::Type(decl) => {
                let (ty, dim) = self.reconstruct_ty(&decl.ty, Span::none());
                push_item(list, Item::Typedef(Box::new(ty), Box::new(copy_ident(&decl.name)), dim));
            },
            HierItem::Design(decl) => {
                // Reconstruct all instantiations and display them here
                let mut i: usize = 0;
                while i < decl.instances.len()
                    invariant
                        item_ok(*self.source, *item),
                        *item == HierItem::Design(*decl),
                        i <= decl.instances@.len(),
                        view_items(*list) == start + Seq::new(i as nat, |j: int| self.spec_instantiation(decl.instances@[j])),
                    decreases decl.instances@.len() - i,
                {
                    proof {
                        axiom_vec_index_decreases(decl.instances, i as int);
                    }
                    assert(inst_ok(*self.source, decl.instances@[i as int]));
                    let inst = self.reconstruct_instantiation(&decl.instances[i]);
                    push_item(list, inst);
                    assert(view_items(*list) =~= start + Seq::new((i + 1) as nat, |j: int| self.spec_instantiation(decl.instances@[j])));
                    i = i + 1;
                }
                assert(Seq::new(i as nat, |j: int| self.spec_instantiation(decl.instances@[j])) =~= self.spec_item(*item));
            },
            HierItem::Instance(decl) => {
                let r = self.reconstruct_instance(decl);
                push_item(list, r);
            },
            HierItem::Other(other) => {
                push_item(list, copy_item(other));
            },
            HierItem::OtherName => {
                assert(view_items(*list) =~= start + self.spec_item(*item));
            },
            HierItem::GenBlock(genblk) => {
                let r = self.reconstruct_gen_if(genblk);
                push_item(list, r);
            },
            HierItem::LoopGenBlock(loopgenblk) => {
                let mut i: usize = 0;
                while i < loopgenblk.instances.len()
                    invariant
                        item_ok(*self.source, *item),
                        *item == HierItem::LoopGenBlock(*loopgenblk),
                        i <= loopgenblk.instances@.len(),
                        view_items(*list) == start + Seq::new(i as nat, |j: int| self.spec_gen_if(loopgenblk.instances@[j])),
                    decreases loopgenblk.instances@.len() - i,
                {
                    proof {
                        axiom_vec_index_decreases(loopgenblk.instances, i as int);
                    }
                    let genblk = &loopgenblk.instances[i];
                    assert forall|j: int| 0 <= j < genblk.scope.items@.len() implies item_ok(*self.source, #[trigger] genblk.scope.items@[j]) by {
                        assert(item_ok(*self.source, loopgenblk.instances@[i as int].scope.items@[j]));
                    }
                    let r = self.reconstruct_gen_if(genblk);
                    push_item(list, r);
                    assert(view_items(*list) =~= start + Seq::new((i + 1) as nat, |j: int| self.spec_gen_if(loopgenblk.instances@[j])));
                    i = i + 1;
                }
                assert(Seq::new(i as nat, |j: int| self.spec_gen_if(loopgenblk.instances@[j])) =~= self.spec_item(*item));
            },
            HierItem::Modport(modport) => {
                let r = self.reconstruct_modport(modport);
                push_item(list, r);
                assert(self.spec_item(*item) =~= seq![self.spec_item(*item)[0]]);
            },
            HierItem::Enum(enu, index) => {
                let r = self.reconstruct_enum_elem(enu, *index);
                push_item(list, r);
            },
            _ => {
                proof {
                    assert(false);
                }
            },
        }
        assert(view_items(*list) =~= start + self.spec_item(*item));
    }

    /// Given a design instantiation, reconstruct the design it stands for.
    pub fn reconstruct_instantiation(&self, inst: &hier::DesignInstantiation) -> (r: Item)
        requires
            inst_ok(*self.source, *inst),
        ensures
            view_item(r) == self.spec_instantiation(*inst),
        decreases inst, 1int,
    {
        let items = &inst.scope.items;
        let ghost s = items@;

        // Reconstruct all parameters
        let mut params: Vec<ast::ParamDecl> = Vec::new();
        let mut i: usize = 0;
        loop
            invariant
                inst_ok(*self.source, *inst),
                s == items@,
                s == inst.scope.items@,
                i <= s.len(),
                params@.len() == i,
                forall|j: int| 0 <= j < i ==> is_param(#[trigger] s[j]),
                forall|j: int| 0 <= j < i ==> view_param_decl(#[trigger] params@[j]) == self.spec_param_decl(s[j]->Param_0),
            ensures
                i <= s.len(),
                params@.len() == i,
                forall|j: int| 0 <= j < i ==> is_param(#[trigger] s[j]),
                i == s.len() || !is_param(s[i as int]),
                forall|j: int| 0 <= j < i ==> view_param_decl(#[trigger] params@[j]) == self.spec_param_decl(s[j]->Param_0),
            decreases s.len() - i,
        {
            if i >= items.len() {
                break;
            }
            match &items[i] {
                HierItem::Param(decl) => {
                    proof {
                        assert forall|j: int| 0 <= j < i + 1 implies leading_kind(#[trigger] s[j], false) by {}
                        lemma_leading_at_least(s, false, i + 1);
                        assert(param_ok(*self.source, s[i as int]->Param_0));
                    }
                    let d = self.reconstruct_param_decl(decl);
                    params.push(d);
                    i = i + 1;
                },
                _ => break,
            }
        }
        let n = i;
        proof {
            lemma_leading_count(s, false, n as int);
        }
        // Reconstruct all ports
        let ghost t = s.subrange(n as int, s.len() as int);
        let mut ports: Vec<ast::PortDecl> = Vec::new();
        loop
            invariant
                inst_ok(*self.source, *inst),
                s == items@,
                s == inst.scope.items@,
                n == num_params(s),
                t == s.subrange(n as int, s.len() as int),
                n <= i <= s.len(),
                ports@.len() == i - n,
                forall|j: int| n <= j < i ==> is_port(#[trigger] s[j]),
                forall|j: int| 0 <= j < i - n ==> view_port_decl(#[trigger] ports@[j]) == self.spec_port(s[n + j]),
            ensures
                n <= i <= s.len(),
                ports@.len() == i - n,
                forall|j: int| n <= j < i ==> is_port(#[trigger] s[j]),
                i == s.len() || !is_port(s[i as int]),
                forall|j: int| 0 <= j < i - n ==> view_port_decl(#[trigger] ports@[j]) == self.spec_port(s[n + j]),
            decreases s.len() - i,
        {
            if i >= items.len() {
                break;
            }
            match &items[i] {
                HierItem::DataPort(_) | HierItem::InterfacePort(_) => {
                    proof {
                        assert forall|j: int| 0 <= j < i + 1 - n implies leading_kind(#[trigger] t[j], true) by {
                            assert(t[j] == s[n + j]);
                        }
                        lemma_leading_at_least(t, true, i + 1 - n);
                        assert(port_ok(*self.source, s[i as int]));
                    }
                    let d = self.reconstruct_port(&items[i]);
                    ports.push(d);
                    i = i + 1;
                },
                _ => break,
            }
        }
        proof {
            assert forall|j: int| 0 <= j < i - n implies leading_kind(#[trigger] t[j], true) by {
                assert(t[j] == s[n + j]);
            }
            if i < s.len() {
                assert(t[i - n] == s[i as int]);
            }
            lemma_leading_count(t, true, (i - n) as int);
        }
        // Now chunk them into params, port and items
        let mut list: Vec<Item> = Vec::new();
        assert(view_items(list) =~= Seq::empty());
        self.reconstruct_items(items, i, &mut list);
        assert(view_items(list) =~= self.spec_items(s, i as int, s.len() as int));
        let param = if params.len() > 0 { Some(params) } else { None };
        let r = ast::DesignDecl {
            kw: inst.kw,
            lifetime: inst.lifetime,
            name: copy_ident(&inst.name),
            param,
            port: ports,
            items: list,
        };
        proof {
            if n > 0 {
                assert(view_param_decls(params) =~= Seq::new(n as nat, |j: int| self.spec_param_decl(s[j]->Param_0)));
            }
            assert(view_port_decls(ports) =~= Seq::new((i - n) as nat, |j: int| self.spec_port(s[n + j])));
        }
        Item::DesignDecl(Box::new(r))
    }

    /// Reconstructs the whole design: first a unit of the package
    /// `global_types` and the packages of the design, then one unit for each
    /// compilation unit. Type declarations are written as the reconstructor
    /// stands; everything after them qualifies type references.
    pub fn reconstruct(&mut self) -> (units: Vec<Vec<Item>>)
        requires
            source_ok(*old(self).source),
        ensures
            view_units(units) == old(self).spec_reconstruct(),
            final(self).source == old(self).source,
            final(self).global_qualify,
    {
        let ghost r0 = *self;
        let source = self.source;
        let mut units: Vec<Vec<Item>> = Vec::new();

        // Build global unit: contain packages and typedefs
        let mut list: Vec<Item> = Vec::new();
        let mut types: Vec<Item> = Vec::new();
        let mut index: usize = 0;
        while index < source.enums.len()
            invariant
                *self == r0,
                source == self.source,
                source_ok(*source),
                index <= source.enums@.len(),
                view_items(types) == Seq::new(index as nat, |i: int| r0.spec_enum_typedef(i)),
            decreases source.enums@.len() - index,
        {
            let prefix = numbered_name("enum_", index);
            assert(enum_ok(*source, source.enums@[index as int]));
            let enu = self.reconstruct_enum(&source.enums[index], prefix.as_str());
            let dims: Vec<Dim> = Vec::new();
            let ty = Spanned::new(DataTypeKind::Enum(enu, dims), Span::none());
            let name = Ident::new(prefix, Span::none());
            let typedef_dims: Vec<Dim> = Vec::new();
            assert(view_dims(dims) =~= Seq::empty());
            assert(view_dims(typedef_dims) =~= Seq::empty());
            push_item(&mut types, Item::Typedef(Box::new(ty), Box::new(name), typedef_dims));
            assert(view_items(types) =~= Seq::new((index + 1) as nat, |i: int| r0.spec_enum_typedef(i)));
            index = index + 1;
        }
        let ghost enum_defs = view_items(types);
        let mut index: usize = 0;
        while index < source.structs.len()
            invariant
                *self == r0,
                source == self.source,
                source_ok(*source),
                index <= source.structs@.len(),
                view_items(types) == enum_defs + Seq::new(index as nat, |i: int| r0.spec_struct_typedef(i)),
            decreases source.structs@.len() - index,
        {
            assert(struct_ok(*source, source.structs@[index as int]));
            let struc = self.reconstruct_struct(&source.structs[index]);
            let dims: Vec<Dim> = Vec::new();
            let ty = Spanned::new(DataTypeKind::Aggr(struc, dims), Span::none());
            let name = Ident::new(numbered_name("struct_", index), Span::none());
            let typedef_dims: Vec<Dim> = Vec::new();
            assert(view_dims(dims) =~= Seq::empty());
            assert(view_dims(typedef_dims) =~= Seq::empty());
            push_item(&mut types, Item::Typedef(Box::new(ty), Box::new(name), typedef_dims));
            assert(view_items(types) =~= enum_defs + Seq::new((index + 1) as nat, |i: int| r0.spec_struct_typedef(i)));
            index = index + 1;
        }
        self.global_qualify = true;
        let global = ast::PkgDecl {
            lifetime: Lifetime::Static,
            name: Ident::new_unspanned(String::from_str("global_types")),
            items: types,
        };
        assert(view_item(Item::PkgDecl(Box::new(global))) == r0.spec_global_pkg());
        push_item(&mut list, Item::PkgDecl(Box::new(global)));

        let mut index: usize = 0;
        while index < source.pkgs.len()
            invariant
                *self == r0.qualified(),
                source == self.source,
                source_ok(*source),
                index <= source.pkgs@.len(),
                view_items(list) == seq![r0.spec_global_pkg()]
                    + Seq::new(index as nat, |i: int| r0.qualified().spec_pkg(source.pkgs@[i])),
            decreases source.pkgs@.len() - index,
        {
            let decl = &source.pkgs[index];
            assert(items_ok(*source, decl.scope.items@));
            let mut items: Vec<Item> = Vec::new();
            assert(view_items(items) =~= Seq::empty());
            self.reconstruct_items(&decl.scope.items, 0, &mut items);
            assert(view_items(items) =~= r0.qualified().spec_items(decl.scope.items@, 0, decl.scope.items@.len() as int));
            push_item(&mut list, Item::PkgDecl(Box::new(ast::PkgDecl {
                lifetime: Lifetime::Static,
                name: copy_ident(&decl.name),
                items,
            })));
            assert(view_items(list) =~= seq![r0.spec_global_pkg()]
                + Seq::new((index + 1) as nat, |i: int| r0.qualified().spec_pkg(source.pkgs@[i])));
            index = index + 1;
        }
        let ghost first = view_items(list);
        units.push(list);
        assert(view_units(units) =~= seq![first]);

        let mut index: usize = 0;
        while index < source.units.len()
            invariant
                *self == r0.qualified(),
                source == self.source,
                source_ok(*source),
                index <= source.units@.len(),
                view_units(units) == seq![first] + Seq::new(
                    index as nat,
                    |i: int| r0.qualified().spec_items(source.units@[i].items@, 0, source.units@[i].items@.len() as int),
                ),
            decreases source.units@.len() - index,
        {
            let unit = &source.units[index];
            assert(items_ok(*source, unit.items@));
            let mut items: Vec<Item> = Vec::new();
            assert(view_items(items) =~= Seq::empty());
            self.reconstruct_items(&unit.items, 0, &mut items);
            let ghost before = view_units(units);
            units.push(items);
            assert(view_units(units) =~= before.push(view_items(items)));
            assert(view_units(units) =~= seq![first] + Seq::new(
                (index + 1) as nat,
                |i: int| r0.qualified().spec_items(source.units@[i].items@, 0, source.units@[i].items@.len() as int),
            ));
            index = index + 1;
        }
        assert(view_units(units) =~= r0.spec_reconstruct());
        units
    }

    /// Given a LogicVec, reconstruct the corresponding constant value.
    pub fn reconstruct_const(&self, val: &LogicVec, span: Span) -> (e: Expr)
        ensures
            view_expr(e) == Self::spec_const(view_logic_vec(*val), span),
    {
        int_literal_exec(copy_logic_vec(val), true, span)
    }
}

} // verus!
