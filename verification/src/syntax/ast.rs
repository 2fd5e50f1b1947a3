//! Syntax trees of SystemVerilog descriptions, as far as elaborated designs
//! are written back into them.
//!
//! Each tree type has a twin whose name begins with `Spec`: the same tree with
//! text as `Seq<char>` and lists as `Seq`. The functions named `view_*` give
//! that twin for a tree, and those named `copy_*` duplicate a tree.

use vstd::prelude::*;
use vstd::pervasive::arbitrary;
use vstd::std_specs::vec::axiom_vec_index_decreases;
use crate::lexer::kw::Keyword;
use crate::source::{Span, Spanned};
use super::tokens::{Token, SpecToken, view_token, copy_token};

verus! {

/// An identifier and where it was written.
#[derive(Debug, PartialEq)]
pub struct Ident {
    pub value: String,
    pub span: Span,
}

pub struct SpecIdent {
    pub value: Seq<char>,
    pub span: Span,
}

impl Ident {
    pub fn new(value: String, span: Span) -> (r: Ident)
        ensures
            r.value@ == value@,
            r.span == span,
    {
        Ident { value, span }
    }

    pub fn new_unspanned(value: String) -> (r: Ident)
        ensures
            r.value@ == value@,
            r.span == Span::spec_none(),
    {
        Ident { value, span: Span::none() }
    }
}

pub open spec fn view_ident(i: Ident) -> SpecIdent {
    SpecIdent { value: i.value@, span: i.span }
}

pub fn copy_ident(i: &Ident) -> (r: Ident)
    ensures
        view_ident(r) == view_ident(*i),
{
    Ident { value: i.value.clone(), span: i.span }
}

/// Whether two identifiers are the same: same text, same span.
pub fn eq_ident(a: &Ident, b: &Ident) -> (r: bool)
    ensures
        r == (view_ident(*a) == view_ident(*b)),
{
    a.value == b.value && a.span == b.span
}

/// A package or class scope written before a name (`pkg::`).
#[derive(Debug, PartialEq)]
pub enum Scope {
    Name(Option<Box<Scope>>, Box<Ident>),
}

pub enum SpecScope {
    Name(Option<Box<SpecScope>>, SpecIdent),
}

/// A hierarchical name (`a.b.c`).
#[derive(Debug, PartialEq)]
pub enum HierId {
    Name(Box<Ident>),
    Member(Box<HierId>, Box<Ident>),
}

pub enum SpecHierId {
    Name(SpecIdent),
    Member(Box<SpecHierId>, SpecIdent),
}

#[derive(Debug, Clone, Copy, PartialEq, Eq, Structural)]
pub enum UnaryOp {
    Add,
    Sub,
    LNot,
    Not,
    And,
    Nand,
    Or,
    Nor,
    Xor,
    Xnor,
}

#[derive(Debug, Clone, Copy, PartialEq, Eq, Structural)]
pub enum IntVecTy {
    Logic,
    Reg,
    Bit,
}

#[derive(Debug, Clone, Copy, PartialEq, Eq, Structural)]
pub enum Signing {
    Signed,
    Unsigned,
}

#[derive(Debug, Clone, Copy, PartialEq, Eq, Structural)]
pub enum AggrType {
    Struct,
    Union,
}

#[derive(Debug, Clone, Copy, PartialEq, Eq, Structural)]
pub enum PortDir {
    Input,
    Output,
    Inout,
    Ref,
}

#[derive(Debug, Clone, Copy, PartialEq, Eq, Structural)]
pub enum NetPortType {
    Default,
    Wire,
    Variable,
}

#[derive(Debug, Clone, Copy, PartialEq, Eq, Structural)]
pub enum Lifetime {
    Static,
    Automatic,
}

/// Expressions.
#[derive(Debug, PartialEq)]
pub enum ExprKind {
    Literal(Token),
    HierName(Option<Scope>, HierId),
    Type(Box<DataType>),
    TypeCast(Box<Expr>, Box<Expr>),
    Unary(UnaryOp, Box<Expr>),
}

pub type Expr = Spanned<ExprKind>;

pub enum SpecExprKind {
    Literal(SpecToken),
    HierName(Option<SpecScope>, SpecHierId),
    Type(Box<SpecDataType>),
    TypeCast(Box<SpecExpr>, Box<SpecExpr>),
    Unary(UnaryOp, Box<SpecExpr>),
}

pub type SpecExpr = Spanned<SpecExprKind>;

/// Data types.
#[derive(Debug, PartialEq)]
pub enum DataTypeKind {
    Type,
    String,
    IntVec(IntVecTy, Signing, Vec<Dim>),
    HierName(Option<Scope>, Ident, Vec<Dim>),
    Enum(EnumDecl, Vec<Dim>),
    Aggr(AggrDecl, Vec<Dim>),
}

pub type DataType = Spanned<DataTypeKind>;

pub enum SpecDataTypeKind {
    Type,
    String,
    IntVec(IntVecTy, Signing, Seq<SpecDim>),
    HierName(Option<SpecScope>, SpecIdent, Seq<SpecDim>),
    Enum(SpecEnumDecl, Seq<SpecDim>),
    Aggr(SpecAggrDecl, Seq<SpecDim>),
}

pub type SpecDataType = Spanned<SpecDataTypeKind>;

/// Packed or unpacked dimensions (`[7:0]`, `[4]`).
#[derive(Debug, PartialEq)]
pub enum DimKind {
    Value(Box<Expr>),
    Range(Box<Expr>, Box<Expr>),
}

pub type Dim = Spanned<DimKind>;

pub enum SpecDimKind {
    Value(Box<SpecExpr>),
    Range(Box<SpecExpr>, Box<SpecExpr>),
}

pub type SpecDim = Spanned<SpecDimKind>;

/// A declared name with its unpacked dimensions and initialiser.
#[derive(Debug, PartialEq)]
pub struct DeclAssign {
    pub name: Ident,
    pub dim: Vec<Dim>,
    pub init: Option<Box<Expr>>,
}

pub struct SpecDeclAssign {
    pub name: SpecIdent,
    pub dim: Seq<SpecDim>,
    pub init: Option<Box<SpecExpr>>,
}

#[derive(Debug, PartialEq)]
pub struct EnumDecl {
    pub ty: Option<Box<DataType>>,
    pub members: Vec<DeclAssign>,
}

pub struct SpecEnumDecl {
    pub ty: Option<Box<SpecDataType>>,
    pub members: Seq<SpecDeclAssign>,
}

#[derive(Debug, PartialEq)]
pub struct AggrMember {
    pub ty: DataType,
    pub list: Vec<DeclAssign>,
}

pub struct SpecAggrMember {
    pub ty: SpecDataType,
    pub list: Seq<SpecDeclAssign>,
}

/// A struct or union type.
#[derive(Debug, PartialEq)]
pub struct AggrDecl {
    pub kind: AggrType,
    pub packed: bool,
    pub sign: Signing,
    pub members: Vec<AggrMember>,
}

pub struct SpecAggrDecl {
    pub kind: AggrType,
    pub packed: bool,
    pub sign: Signing,
    pub members: Seq<SpecAggrMember>,
}

/// `parameter` and `localparam` declarations.
#[derive(Debug, PartialEq)]
pub struct ParamDecl {
    pub kw: Keyword,
    pub ty: Option<Box<DataType>>,
    pub list: Vec<DeclAssign>,
}

pub struct SpecParamDecl {
    pub kw: Keyword,
    pub ty: Option<Box<SpecDataType>>,
    pub list: Seq<SpecDeclAssign>,
}

/// Port connections of an instance, by position.
#[derive(Debug, PartialEq)]
pub enum PortConn {
    Ordered(Vec<Option<Box<Expr>>>),
}

pub enum SpecPortConn {
    Ordered(Seq<Option<Box<SpecExpr>>>),
}

/// One instance in an instantiation.
#[derive(Debug, PartialEq)]
pub struct HierInst {
    pub name: Ident,
    pub dim: Vec<Dim>,
    pub ports: PortConn,
}

pub struct SpecHierInst {
    pub name: SpecIdent,
    pub dim: Seq<SpecDim>,
    pub ports: SpecPortConn,
}

/// The instantiation of a module or interface.
#[derive(Debug, PartialEq)]
pub struct HierInstantiation {
    pub name: Ident,
    pub inst: Vec<HierInst>,
}

pub struct SpecHierInstantiation {
    pub name: SpecIdent,
    pub inst: Seq<SpecHierInst>,
}

/// A generate block.
#[derive(Debug, PartialEq)]
pub struct GenBlock {
    pub name: Option<Ident>,
    pub items: Vec<Item>,
}

pub struct SpecGenBlock {
    pub name: Option<SpecIdent>,
    pub items: Seq<SpecItem>,
}

/// A conditional generate construct: each block with its condition, then
/// the optional `else` block.
#[derive(Debug, PartialEq)]
pub struct IfGen {
    pub if_block: Vec<(Expr, GenBlock)>,
    pub else_block: Option<Box<GenBlock>>,
}

pub struct SpecIfGen {
    pub if_block: Seq<(SpecExpr, SpecGenBlock)>,
    pub else_block: Option<Box<SpecGenBlock>>,
}

#[derive(Debug, PartialEq)]
pub enum ModportSimplePort {
    Named(Ident),
}

pub enum SpecModportSimplePort {
    Named(SpecIdent),
}

#[derive(Debug, PartialEq)]
pub enum ModportPortDecl {
    Simple(PortDir, Vec<ModportSimplePort>),
}

pub enum SpecModportPortDecl {
    Simple(PortDir, Seq<SpecModportSimplePort>),
}

/// A port in the header of a module or interface.
#[derive(Debug, PartialEq)]
pub enum PortDecl {
    Data(PortDir, NetPortType, Box<DataType>, Vec<DeclAssign>),
    Interface(Option<Box<Ident>>, Option<Box<Ident>>, Vec<DeclAssign>),
}

pub enum SpecPortDecl {
    Data(PortDir, NetPortType, Box<SpecDataType>, Seq<SpecDeclAssign>),
    Interface(Option<Box<SpecIdent>>, Option<Box<SpecIdent>>, Seq<SpecDeclAssign>),
}

/// A module, interface or program.
#[derive(Debug, PartialEq)]
pub struct DesignDecl {
    pub kw: Keyword,
    pub lifetime: Lifetime,
    pub name: Ident,
    pub param: Option<Vec<ParamDecl>>,
    pub port: Vec<PortDecl>,
    pub items: Vec<Item>,
}

pub struct SpecDesignDecl {
    pub kw: Keyword,
    pub lifetime: Lifetime,
    pub name: SpecIdent,
    pub param: Option<Seq<SpecParamDecl>>,
    pub port: Seq<SpecPortDecl>,
    pub items: Seq<SpecItem>,
}

/// A package.
#[derive(Debug, PartialEq)]
pub struct PkgDecl {
    pub lifetime: Lifetime,
    pub name: Ident,
    pub items: Vec<Item>,
}

pub struct SpecPkgDecl {
    pub lifetime: Lifetime,
    pub name: SpecIdent,
    pub items: Seq<SpecItem>,
}

/// Items of a compilation unit, package, design or generate block.
#[derive(Debug, PartialEq)]
pub enum Item {
    DesignDecl(Box<DesignDecl>),
    PkgDecl(Box<PkgDecl>),
    ParamDecl(Box<ParamDecl>),
    Typedef(Box<DataType>, Box<Ident>, Vec<Dim>),
    HierInstantiation(Box<HierInstantiation>),
    IfGen(Box<IfGen>),
    ModportDecl(Vec<(Ident, Vec<ModportPortDecl>)>),
}

pub enum SpecItem {
    DesignDecl(Box<SpecDesignDecl>),
    PkgDecl(Box<SpecPkgDecl>),
    ParamDecl(Box<SpecParamDecl>),
    Typedef(Box<SpecDataType>, Box<SpecIdent>, Seq<SpecDim>),
    HierInstantiation(Box<SpecHierInstantiation>),
    IfGen(Box<SpecIfGen>),
    ModportDecl(Seq<(SpecIdent, Seq<SpecModportPortDecl>)>),
}

// ---------------------------------------------------------------------------
// Views

pub open spec fn view_scope(s: Scope) -> SpecScope
    decreases s,
{
    match s {
        Scope::Name(parent, id) => SpecScope::Name(
            match parent {
                Some(p) => Some(Box::new(view_scope(*p))),
                None => None,
            },
            view_ident(*id),
        ),
    }
}

pub open spec fn view_opt_scope(s: Option<Scope>) -> Option<SpecScope> {
    match s {
        Some(s) => Some(view_scope(s)),
        None => None,
    }
}

pub open spec fn view_hier_id(h: HierId) -> SpecHierId
    decreases h,
{
    match h {
        HierId::Name(id) => SpecHierId::Name(view_ident(*id)),
        HierId::Member(p, id) => SpecHierId::Member(Box::new(view_hier_id(*p)), view_ident(*id)),
    }
}

pub open spec fn view_opt_ident(i: Option<Box<Ident>>) -> Option<Box<SpecIdent>> {
    match i {
        Some(i) => Some(Box::new(view_ident(*i))),
        None => None,
    }
}

pub open spec fn view_expr(e: Expr) -> SpecExpr
    decreases e,
{
    Spanned {
        value: match e.value {
            ExprKind::Literal(t) => SpecExprKind::Literal(view_token(t)),
            ExprKind::HierName(s, h) => SpecExprKind::HierName(view_opt_scope(s), view_hier_id(h)),
            ExprKind::Type(t) => SpecExprKind::Type(Box::new(view_data_type(*t))),
            ExprKind::TypeCast(a, b) => SpecExprKind::TypeCast(
                Box::new(view_expr(*a)),
                Box::new(view_expr(*b)),
            ),
            ExprKind::Unary(op, a) => SpecExprKind::Unary(op, Box::new(view_expr(*a))),
        },
        span: e.span,
    }
}

pub open spec fn view_opt_expr(e: Option<Box<Expr>>) -> Option<Box<SpecExpr>>
    decreases e,
{
    match e {
        Some(b) => Some(Box::new(view_expr(*b))),
        None => None,
    }
}

pub open spec fn view_data_type(d: DataType) -> SpecDataType
    decreases d,
{
    Spanned {
        value: match d.value {
            DataTypeKind::Type => SpecDataTypeKind::Type,
            DataTypeKind::String => SpecDataTypeKind::String,
            DataTypeKind::IntVec(t, s, dims) => SpecDataTypeKind::IntVec(t, s, view_dims(dims)),
            DataTypeKind::HierName(s, id, dims) => SpecDataTypeKind::HierName(
                view_opt_scope(s),
                view_ident(id),
                view_dims(dims),
            ),
            DataTypeKind::Enum(e, dims) => SpecDataTypeKind::Enum(view_enum_decl(e), view_dims(dims)),
            DataTypeKind::Aggr(a, dims) => SpecDataTypeKind::Aggr(view_aggr_decl(a), view_dims(dims)),
        },
        span: d.span,
    }
}

pub open spec fn view_opt_data_type(d: Option<Box<DataType>>) -> Option<Box<SpecDataType>>
    decreases d,
{
    match d {
        Some(b) => Some(Box::new(view_data_type(*b))),
        None => None,
    }
}

pub open spec fn view_dim(d: Dim) -> SpecDim
    decreases d,
{
    Spanned {
        value: match d.value {
            DimKind::Value(e) => SpecDimKind::Value(Box::new(view_expr(*e))),
            DimKind::Range(a, b) => SpecDimKind::Range(Box::new(view_expr(*a)), Box::new(view_expr(*b))),
        },
        span: d.span,
    }
}

pub open spec fn view_decl_assign(d: DeclAssign) -> SpecDeclAssign
    decreases d,
{
    SpecDeclAssign { name: view_ident(d.name), dim: view_dims(d.dim), init: view_opt_expr(d.init) }
}

pub open spec fn view_enum_decl(e: EnumDecl) -> SpecEnumDecl
    decreases e,
{
    SpecEnumDecl { ty: view_opt_data_type(e.ty), members: view_decl_assigns(e.members) }
}

pub open spec fn view_aggr_member(m: AggrMember) -> SpecAggrMember
    decreases m,
{
    SpecAggrMember { ty: view_data_type(m.ty), list: view_decl_assigns(m.list) }
}

pub open spec fn view_aggr_decl(a: AggrDecl) -> SpecAggrDecl
    decreases a,
{
    SpecAggrDecl {
        kind: a.kind,
        packed: a.packed,
        sign: a.sign,
        members: view_aggr_members(a.members),
    }
}

pub open spec fn view_param_decl(p: ParamDecl) -> SpecParamDecl
    decreases p,
{
    SpecParamDecl { kw: p.kw, ty: view_opt_data_type(p.ty), list: view_decl_assigns(p.list) }
}

pub open spec fn view_hier_inst(h: HierInst) -> SpecHierInst
    decreases h,
{
    SpecHierInst {
        name: view_ident(h.name),
        dim: view_dims(h.dim),
        ports: match h.ports {
            PortConn::Ordered(v) => SpecPortConn::Ordered(view_opt_exprs(v)),
        },
    }
}

pub open spec fn view_hier_instantiation(h: HierInstantiation) -> SpecHierInstantiation
    decreases h,
{
    SpecHierInstantiation { name: view_ident(h.name), inst: view_hier_insts(h.inst) }
}

pub open spec fn view_opt_gen_name(n: Option<Ident>) -> Option<SpecIdent> {
    match n {
        Some(i) => Some(view_ident(i)),
        None => None,
    }
}

pub open spec fn view_gen_block(g: GenBlock) -> SpecGenBlock
    decreases g,
{
    SpecGenBlock { name: view_opt_gen_name(g.name), items: view_items(g.items) }
}

pub open spec fn view_cond_block(c: (Expr, GenBlock)) -> (SpecExpr, SpecGenBlock)
    decreases c,
{
    (view_expr(c.0), view_gen_block(c.1))
}

pub open spec fn view_if_gen(g: IfGen) -> SpecIfGen
    decreases g,
{
    SpecIfGen {
        if_block: view_cond_blocks(g.if_block),
        else_block: match g.else_block {
            Some(b) => Some(Box::new(view_gen_block(*b))),
            None => None,
        },
    }
}

pub open spec fn view_simple_port(p: ModportSimplePort) -> SpecModportSimplePort {
    match p {
        ModportSimplePort::Named(i) => SpecModportSimplePort::Named(view_ident(i)),
    }
}

pub open spec fn view_modport_port_decl(p: ModportPortDecl) -> SpecModportPortDecl
    decreases p,
{
    match p {
        ModportPortDecl::Simple(dir, ports) => SpecModportPortDecl::Simple(dir, view_simple_ports(ports)),
    }
}

pub open spec fn view_modport_entry(e: (Ident, Vec<ModportPortDecl>)) -> (SpecIdent, Seq<SpecModportPortDecl>)
    decreases e,
{
    (view_ident(e.0), view_modport_port_decls(e.1))
}

pub open spec fn view_port_decl(p: PortDecl) -> SpecPortDecl
    decreases p,
{
    match p {
        PortDecl::Data(dir, net, ty, list) => SpecPortDecl::Data(
            dir,
            net,
            Box::new(view_data_type(*ty)),
            view_decl_assigns(list),
        ),
        PortDecl::Interface(intf, modport, list) => SpecPortDecl::Interface(
            view_opt_ident(intf),
            view_opt_ident(modport),
            view_decl_assigns(list),
        ),
    }
}

pub open spec fn view_design_decl(d: DesignDecl) -> SpecDesignDecl
    decreases d,
{
    SpecDesignDecl {
        kw: d.kw,
        lifetime: d.lifetime,
        name: view_ident(d.name),
        param: match d.param {
            Some(p) => Some(view_param_decls(p)),
            None => None,
        },
        port: view_port_decls(d.port),
        items: view_items(d.items),
    }
}

pub open spec fn view_pkg_decl(p: PkgDecl) -> SpecPkgDecl
    decreases p,
{
    SpecPkgDecl { lifetime: p.lifetime, name: view_ident(p.name), items: view_items(p.items) }
}

pub open spec fn view_item(i: Item) -> SpecItem
    decreases i,
{
    match i {
        Item::DesignDecl(d) => SpecItem::DesignDecl(Box::new(view_design_decl(*d))),
        Item::PkgDecl(p) => SpecItem::PkgDecl(Box::new(view_pkg_decl(*p))),
        Item::ParamDecl(p) => SpecItem::ParamDecl(Box::new(view_param_decl(*p))),
        Item::Typedef(t, n, dims) => SpecItem::Typedef(
            Box::new(view_data_type(*t)),
            Box::new(view_ident(*n)),
            view_dims(dims),
        ),
        Item::HierInstantiation(h) => SpecItem::HierInstantiation(Box::new(view_hier_instantiation(*h))),
        Item::IfGen(g) => SpecItem::IfGen(Box::new(view_if_gen(*g))),
        Item::ModportDecl(v) => SpecItem::ModportDecl(view_modport_entries(v)),
    }
}

/// The twin of a list of compilation units.
pub open spec fn view_units(v: Vec<Vec<Item>>) -> Seq<Seq<SpecItem>> {
    Seq::new(v@.len(), |i: int| view_items(v@[i]))
}

// ---------------------------------------------------------------------------
// Copies

pub fn copy_scope(s: &Scope) -> (r: Scope)
    ensures
        view_scope(r) == view_scope(*s),
    decreases s,
{
    match s {
        Scope::Name(parent, id) => {
            let p = match parent {
                Some(p) => Some(Box::new(copy_scope(&**p))),
                None => None,
            };
            Scope::Name(p, Box::new(copy_ident(&**id)))
        },
    }
}

pub fn copy_opt_scope(s: &Option<Scope>) -> (r: Option<Scope>)
    ensures
        view_opt_scope(r) == view_opt_scope(*s),
{
    match s {
        Some(s) => Some(copy_scope(s)),
        None => None,
    }
}

pub fn copy_hier_id(h: &HierId) -> (r: HierId)
    ensures
        view_hier_id(r) == view_hier_id(*h),
    decreases h,
{
    match h {
        HierId::Name(id) => HierId::Name(Box::new(copy_ident(&**id))),
        HierId::Member(p, id) => HierId::Member(Box::new(copy_hier_id(&**p)), Box::new(copy_ident(&**id))),
    }
}

pub fn copy_opt_ident(i: &Option<Box<Ident>>) -> (r: Option<Box<Ident>>)
    ensures
        view_opt_ident(r) == view_opt_ident(*i),
{
    match i {
        Some(i) => Some(Box::new(copy_ident(&**i))),
        None => None,
    }
}

pub fn copy_expr(e: &Expr) -> (r: Expr)
    ensures
        view_expr(r) == view_expr(*e),
    decreases e,
{
    let value = match &e.value {
        ExprKind::Literal(t) => ExprKind::Literal(copy_token(t)),
        ExprKind::HierName(s, h) => ExprKind::HierName(copy_opt_scope(s), copy_hier_id(h)),
        ExprKind::Type(t) => ExprKind::Type(Box::new(copy_data_type(&**t))),
        ExprKind::TypeCast(a, b) => ExprKind::TypeCast(Box::new(copy_expr(&**a)), Box::new(copy_expr(&**b))),
        ExprKind::Unary(op, a) => ExprKind::Unary(*op, Box::new(copy_expr(&**a))),
    };
    Spanned { value, span: e.span }
}

pub fn copy_opt_expr(e: &Option<Box<Expr>>) -> (r: Option<Box<Expr>>)
    ensures
        view_opt_expr(r) == view_opt_expr(*e),
    decreases e,
{
    match e {
        Some(b) => Some(Box::new(copy_expr(&**b))),
        None => None,
    }
}

pub fn copy_data_type(d: &DataType) -> (r: DataType)
    ensures
        view_data_type(r) == view_data_type(*d),
    decreases d,
{
    let value = match &d.value {
        DataTypeKind::Type => DataTypeKind::Type,
        DataTypeKind::String => DataTypeKind::String,
        DataTypeKind::IntVec(t, s, dims) => DataTypeKind::IntVec(*t, *s, copy_dims(dims)),
        DataTypeKind::HierName(s, id, dims) => DataTypeKind::HierName(
            copy_opt_scope(s),
            copy_ident(id),
            copy_dims(dims),
        ),
        DataTypeKind::Enum(e, dims) => DataTypeKind::Enum(copy_enum_decl(e), copy_dims(dims)),
        DataTypeKind::Aggr(a, dims) => DataTypeKind::Aggr(copy_aggr_decl(a), copy_dims(dims)),
    };
    Spanned { value, span: d.span }
}

pub fn copy_opt_data_type(d: &Option<Box<DataType>>) -> (r: Option<Box<DataType>>)
    ensures
        view_opt_data_type(r) == view_opt_data_type(*d),
    decreases d,
{
    match d {
        Some(b) => Some(Box::new(copy_data_type(&**b))),
        None => None,
    }
}

pub fn copy_dim(d: &Dim) -> (r: Dim)
    ensures
        view_dim(r) == view_dim(*d),
    decreases d,
{
    let value = match &d.value {
        DimKind::Value(e) => DimKind::Value(Box::new(copy_expr(&**e))),
        DimKind::Range(a, b) => DimKind::Range(Box::new(copy_expr(&**a)), Box::new(copy_expr(&**b))),
    };
    Spanned { value, span: d.span }
}

pub fn copy_decl_assign(d: &DeclAssign) -> (r: DeclAssign)
    ensures
        view_decl_assign(r) == view_decl_assign(*d),
    decreases d,
{
    DeclAssign { name: copy_ident(&d.name), dim: copy_dims(&d.dim), init: copy_opt_expr(&d.init) }
}

pub fn copy_enum_decl(e: &EnumDecl) -> (r: EnumDecl)
    ensures
        view_enum_decl(r) == view_enum_decl(*e),
    decreases e,
{
    EnumDecl { ty: copy_opt_data_type(&e.ty), members: copy_decl_assigns(&e.members) }
}

pub fn copy_aggr_member(m: &AggrMember) -> (r: AggrMember)
    ensures
        view_aggr_member(r) == view_aggr_member(*m),
    decreases m,
{
    AggrMember { ty: copy_data_type(&m.ty), list: copy_decl_assigns(&m.list) }
}

pub fn copy_aggr_decl(a: &AggrDecl) -> (r: AggrDecl)
    ensures
        view_aggr_decl(r) == view_aggr_decl(*a),
    decreases a,
{
    AggrDecl { kind: a.kind, packed: a.packed, sign: a.sign, members: copy_aggr_members(&a.members) }
}

pub fn copy_param_decl(p: &ParamDecl) -> (r: ParamDecl)
    ensures
        view_param_decl(r) == view_param_decl(*p),
    decreases p,
{
    ParamDecl { kw: p.kw, ty: copy_opt_data_type(&p.ty), list: copy_decl_assigns(&p.list) }
}

pub fn copy_hier_inst(h: &HierInst) -> (r: HierInst)
    ensures
        view_hier_inst(r) == view_hier_inst(*h),
    decreases h,
{
    let ports = match &h.ports {
        PortConn::Ordered(v) => PortConn::Ordered(copy_opt_exprs(v)),
    };
    HierInst { name: copy_ident(&h.name), dim: copy_dims(&h.dim), ports }
}

pub fn copy_hier_instantiation(h: &HierInstantiation) -> (r: HierInstantiation)
    ensures
        view_hier_instantiation(r) == view_hier_instantiation(*h),
    decreases h,
{
    HierInstantiation { name: copy_ident(&h.name), inst: copy_hier_insts(&h.inst) }
}

pub fn copy_opt_gen_name(n: &Option<Ident>) -> (r: Option<Ident>)
    ensures
        view_opt_gen_name(r) == view_opt_gen_name(*n),
{
    match n {
        Some(i) => Some(copy_ident(i)),
        None => None,
    }
}

pub fn copy_gen_block(g: &GenBlock) -> (r: GenBlock)
    ensures
        view_gen_block(r) == view_gen_block(*g),
    decreases g,
{
    GenBlock { name: copy_opt_gen_name(&g.name), items: copy_items(&g.items) }
}

pub fn copy_cond_block(c: &(Expr, GenBlock)) -> (r: (Expr, GenBlock))
    ensures
        view_cond_block(r) == view_cond_block(*c),
    decreases c,
{
    (copy_expr(&c.0), copy_gen_block(&c.1))
}

pub fn copy_if_gen(g: &IfGen) -> (r: IfGen)
    ensures
        view_if_gen(r) == view_if_gen(*g),
    decreases g,
{
    let else_block = match &g.else_block {
        Some(b) => Some(Box::new(copy_gen_block(&**b))),
        None => None,
    };
    IfGen { if_block: copy_cond_blocks(&g.if_block), else_block }
}

pub fn copy_simple_port(p: &ModportSimplePort) -> (r: ModportSimplePort)
    ensures
        view_simple_port(r) == view_simple_port(*p),
{
    match p {
        ModportSimplePort::Named(i) => ModportSimplePort::Named(copy_ident(i)),
    }
}

pub fn copy_modport_port_decl(p: &ModportPortDecl) -> (r: ModportPortDecl)
    ensures
        view_modport_port_decl(r) == view_modport_port_decl(*p),
    decreases p,
{
    match p {
        ModportPortDecl::Simple(dir, ports) => ModportPortDecl::Simple(*dir, copy_simple_ports(ports)),
    }
}

pub fn copy_modport_entry(e: &(Ident, Vec<ModportPortDecl>)) -> (r: (Ident, Vec<ModportPortDecl>))
    ensures
        view_modport_entry(r) == view_modport_entry(*e),
    decreases e,
{
    (copy_ident(&e.0), copy_modport_port_decls(&e.1))
}

pub fn copy_port_decl(p: &PortDecl) -> (r: PortDecl)
    ensures
        view_port_decl(r) == view_port_decl(*p),
    decreases p,
{
    match p {
        PortDecl::Data(dir, net, ty, list) => PortDecl::Data(
            *dir,
            *net,
            Box::new(copy_data_type(&**ty)),
            copy_decl_assigns(list),
        ),
        PortDecl::Interface(intf, modport, list) => PortDecl::Interface(
            copy_opt_ident(intf),
            copy_opt_ident(modport),
            copy_decl_assigns(list),
        ),
    }
}

pub fn copy_design_decl(d: &DesignDecl) -> (r: DesignDecl)
    ensures
        view_design_decl(r) == view_design_decl(*d),
    decreases d,
{
    let param = match &d.param {
        Some(p) => Some(copy_param_decls(p)),
        None => None,
    };
    DesignDecl {
        kw: d.kw,
        lifetime: d.lifetime,
        name: copy_ident(&d.name),
        param,
        port: copy_port_decls(&d.port),
        items: copy_items(&d.items),
    }
}

pub fn copy_pkg_decl(p: &PkgDecl) -> (r: PkgDecl)
    ensures
        view_pkg_decl(r) == view_pkg_decl(*p),
    decreases p,
{
    PkgDecl { lifetime: p.lifetime, name: copy_ident(&p.name), items: copy_items(&p.items) }
}

pub fn copy_item(i: &Item) -> (r: Item)
    ensures
        view_item(r) == view_item(*i),
    decreases i,
{
    match i {
        Item::DesignDecl(d) => Item::DesignDecl(Box::new(copy_design_decl(&**d))),
        Item::PkgDecl(p) => Item::PkgDecl(Box::new(copy_pkg_decl(&**p))),
        Item::ParamDecl(p) => Item::ParamDecl(Box::new(copy_param_decl(&**p))),
        Item::Typedef(t, n, dims) => Item::Typedef(
            Box::new(copy_data_type(&**t)),
            Box::new(copy_ident(&**n)),
            copy_dims(dims),
        ),
        Item::HierInstantiation(h) => Item::HierInstantiation(Box::new(copy_hier_instantiation(&**h))),
        Item::IfGen(g) => Item::IfGen(Box::new(copy_if_gen(&**g))),
        Item::ModportDecl(v) => Item::ModportDecl(copy_modport_entries(v)),
    }
}

// ---------------------------------------------------------------------------
// Lists

pub open spec fn view_dims(v: Vec<Dim>) -> Seq<SpecDim>
    decreases v,
{
    Seq::new(v@.len(), |i: int| if 0 <= i < v@.len() { view_dim(v@[i]) } else { arbitrary() })
}

pub fn copy_dims(v: &Vec<Dim>) -> (r: Vec<Dim>)
    ensures
        view_dims(r) == view_dims(*v),
    decreases v,
{
    let mut out: Vec<Dim> = Vec::new();
    let mut i: usize = 0;
    while i < v.len()
        invariant
            i <= v@.len(),
            out@.len() == i,
            forall|j: int| 0 <= j < i ==> view_dim(#[trigger] out@[j]) == view_dim(v@[j]),
        decreases v@.len() - i,
    {
        proof {
            axiom_vec_index_decreases(*v, i as int);
        }
        let x = copy_dim(&v[i]);
        out.push(x);
        i = i + 1;
    }
    assert(view_dims(out) =~= view_dims(*v));
    out
}

pub open spec fn view_decl_assigns(v: Vec<DeclAssign>) -> Seq<SpecDeclAssign>
    decreases v,
{
    Seq::new(v@.len(), |i: int| if 0 <= i < v@.len() { view_decl_assign(v@[i]) } else { arbitrary() })
}

pub fn copy_decl_assigns(v: &Vec<DeclAssign>) -> (r: Vec<DeclAssign>)
    ensures
        view_decl_assigns(r) == view_decl_assigns(*v),
    decreases v,
{
    let mut out: Vec<DeclAssign> = Vec::new();
    let mut i: usize = 0;
    while i < v.len()
        invariant
            i <= v@.len(),
            out@.len() == i,
            forall|j: int| 0 <= j < i ==> view_decl_assign(#[trigger] out@[j]) == view_decl_assign(v@[j]),
        decreases v@.len() - i,
    {
        proof {
            axiom_vec_index_decreases(*v, i as int);
        }
        let x = copy_decl_assign(&v[i]);
        out.push(x);
        i = i + 1;
    }
    assert(view_decl_assigns(out) =~= view_decl_assigns(*v));
    out
}

pub open spec fn view_aggr_members(v: Vec<AggrMember>) -> Seq<SpecAggrMember>
    decreases v,
{
    Seq::new(v@.len(), |i: int| if 0 <= i < v@.len() { view_aggr_member(v@[i]) } else { arbitrary() })
}

pub fn copy_aggr_members(v: &Vec<AggrMember>) -> (r: Vec<AggrMember>)
    ensures
        view_aggr_members(r) == view_aggr_members(*v),
    decreases v,
{
    let mut out: Vec<AggrMember> = Vec::new();
    let mut i: usize = 0;
    while i < v.len()
        invariant
            i <= v@.len(),
            out@.len() == i,
            forall|j: int| 0 <= j < i ==> view_aggr_member(#[trigger] out@[j]) == view_aggr_member(v@[j]),
        decreases v@.len() - i,
    {
        proof {
            axiom_vec_index_decreases(*v, i as int);
        }
        let x = copy_aggr_member(&v[i]);
        out.push(x);
        i = i + 1;
    }
    assert(view_aggr_members(out) =~= view_aggr_members(*v));
    out
}

pub open spec fn view_param_decls(v: Vec<ParamDecl>) -> Seq<SpecParamDecl>
    decreases v,
{
    Seq::new(v@.len(), |i: int| if 0 <= i < v@.len() { view_param_decl(v@[i]) } else { arbitrary() })
}

pub fn copy_param_decls(v: &Vec<ParamDecl>) -> (r: Vec<ParamDecl>)
    ensures
        view_param_decls(r) == view_param_decls(*v),
    decreases v,
{
    let mut out: Vec<ParamDecl> = Vec::new();
    let mut i: usize = 0;
    while i < v.len()
        invariant
            i <= v@.len(),
            out@.len() == i,
            forall|j: int| 0 <= j < i ==> view_param_decl(#[trigger] out@[j]) == view_param_decl(v@[j]),
        decreases v@.len() - i,
    {
        proof {
            axiom_vec_index_decreases(*v, i as int);
        }
        let x = copy_param_decl(&v[i]);
        out.push(x);
        i = i + 1;
    }
    assert(view_param_decls(out) =~= view_param_decls(*v));
    out
}

pub open spec fn view_opt_exprs(v: Vec<Option<Box<Expr>>>) -> Seq<Option<Box<SpecExpr>>>
    decreases v,
{
    Seq::new(v@.len(), |i: int| if 0 <= i < v@.len() { view_opt_expr(v@[i]) } else { arbitrary() })
}

pub fn copy_opt_exprs(v: &Vec<Option<Box<Expr>>>) -> (r: Vec<Option<Box<Expr>>>)
    ensures
        view_opt_exprs(r) == view_opt_exprs(*v),
    decreases v,
{
    let mut out: Vec<Option<Box<Expr>>> = Vec::new();
    let mut i: usize = 0;
    while i < v.len()
        invariant
            i <= v@.len(),
            out@.len() == i,
            forall|j: int| 0 <= j < i ==> view_opt_expr(#[trigger] out@[j]) == view_opt_expr(v@[j]),
        decreases v@.len() - i,
    {
        proof {
            axiom_vec_index_decreases(*v, i as int);
        }
        let x = copy_opt_expr(&v[i]);
        out.push(x);
        i = i + 1;
    }
    assert(view_opt_exprs(out) =~= view_opt_exprs(*v));
    out
}

pub open spec fn view_hier_insts(v: Vec<HierInst>) -> Seq<SpecHierInst>
    decreases v,
{
    Seq::new(v@.len(), |i: int| if 0 <= i < v@.len() { view_hier_inst(v@[i]) } else { arbitrary() })
}

pub fn copy_hier_insts(v: &Vec<HierInst>) -> (r: Vec<HierInst>)
    ensures
        view_hier_insts(r) == view_hier_insts(*v),
    decreases v,
{
    let mut out: Vec<HierInst> = Vec::new();
    let mut i: usize = 0;
    while i < v.len()
        invariant
            i <= v@.len(),
            out@.len() == i,
            forall|j: int| 0 <= j < i ==> view_hier_inst(#[trigger] out@[j]) == view_hier_inst(v@[j]),
        decreases v@.len() - i,
    {
        proof {
            axiom_vec_index_decreases(*v, i as int);
        }
        let x = copy_hier_inst(&v[i]);
        out.push(x);
        i = i + 1;
    }
    assert(view_hier_insts(out) =~= view_hier_insts(*v));
    out
}

pub open spec fn view_items(v: Vec<Item>) -> Seq<SpecItem>
    decreases v,
{
    Seq::new(v@.len(), |i: int| if 0 <= i < v@.len() { view_item(v@[i]) } else { arbitrary() })
}

pub fn copy_items(v: &Vec<Item>) -> (r: Vec<Item>)
    ensures
        view_items(r) == view_items(*v),
    decreases v,
{
    let mut out: Vec<Item> = Vec::new();
    let mut i: usize = 0;
    while i < v.len()
        invariant
            i <= v@.len(),
            out@.len() == i,
            forall|j: int| 0 <= j < i ==> view_item(#[trigger] out@[j]) == view_item(v@[j]),
        decreases v@.len() - i,
    {
        proof {
            axiom_vec_index_decreases(*v, i as int);
        }
        let x = copy_item(&v[i]);
        out.push(x);
        i = i + 1;
    }
    assert(view_items(out) =~= view_items(*v));
    out
}

pub open spec fn view_cond_blocks(v: Vec<(Expr, GenBlock)>) -> Seq<(SpecExpr, SpecGenBlock)>
    decreases v,
{
    Seq::new(v@.len(), |i: int| if 0 <= i < v@.len() { view_cond_block(v@[i]) } else { arbitrary() })
}

pub fn copy_cond_blocks(v: &Vec<(Expr, GenBlock)>) -> (r: Vec<(Expr, GenBlock)>)
    ensures
        view_cond_blocks(r) == view_cond_blocks(*v),
    decreases v,
{
    let mut out: Vec<(Expr, GenBlock)> = Vec::new();
    let mut i: usize = 0;
    while i < v.len()
        invariant
            i <= v@.len(),
            out@.len() == i,
            forall|j: int| 0 <= j < i ==> view_cond_block(#[trigger] out@[j]) == view_cond_block(v@[j]),
        decreases v@.len() - i,
    {
        proof {
            axiom_vec_index_decreases(*v, i as int);
        }
        let x = copy_cond_block(&v[i]);
        out.push(x);
        i = i + 1;
    }
    assert(view_cond_blocks(out) =~= view_cond_blocks(*v));
    out
}

pub open spec fn view_simple_ports(v: Vec<ModportSimplePort>) -> Seq<SpecModportSimplePort>
    decreases v,
{
    Seq::new(v@.len(), |i: int| if 0 <= i < v@.len() { view_simple_port(v@[i]) } else { arbitrary() })
}

pub fn copy_simple_ports(v: &Vec<ModportSimplePort>) -> (r: Vec<ModportSimplePort>)
    ensures
        view_simple_ports(r) == view_simple_ports(*v),
    decreases v,
{
    let mut out: Vec<ModportSimplePort> = Vec::new();
    let mut i: usize = 0;
    while i < v.len()
        invariant
            i <= v@.len(),
            out@.len() == i,
            forall|j: int| 0 <= j < i ==> view_simple_port(#[trigger] out@[j]) == view_simple_port(v@[j]),
        decreases v@.len() - i,
    {
        proof {
            axiom_vec_index_decreases(*v, i as int);
        }
        let x = copy_simple_port(&v[i]);
        out.push(x);
        i = i + 1;
    }
    assert(view_simple_ports(out) =~= view_simple_ports(*v));
    out
}

pub open spec fn view_modport_port_decls(v: Vec<ModportPortDecl>) -> Seq<SpecModportPortDecl>
    decreases v,
{
    Seq::new(v@.len(), |i: int| if 0 <= i < v@.len() { view_modport_port_decl(v@[i]) } else { arbitrary() })
}

pub fn copy_modport_port_decls(v: &Vec<ModportPortDecl>) -> (r: Vec<ModportPortDecl>)
    ensures
        view_modport_port_decls(r) == view_modport_port_decls(*v),
    decreases v,
{
    let mut out: Vec<ModportPortDecl> = Vec::new();
    let mut i: usize = 0;
    while i < v.len()
        invariant
            i <= v@.len(),
            out@.len() == i,
            forall|j: int| 0 <= j < i ==> view_modport_port_decl(#[trigger] out@[j]) == view_modport_port_decl(v@[j]),
        decreases v@.len() - i,
    {
        proof {
            axiom_vec_index_decreases(*v, i as int);
        }
        let x = copy_modport_port_decl(&v[i]);
        out.push(x);
        i = i + 1;
    }
    assert(view_modport_port_decls(out) =~= view_modport_port_decls(*v));
    out
}

pub open spec fn view_modport_entries(v: Vec<(Ident, Vec<ModportPortDecl>)>) -> Seq<(SpecIdent, Seq<SpecModportPortDecl>)>
    decreases v,
{
    Seq::new(v@.len(), |i: int| if 0 <= i < v@.len() { view_modport_entry(v@[i]) } else { arbitrary() })
}

pub fn copy_modport_entries(v: &Vec<(Ident, Vec<ModportPortDecl>)>) -> (r: Vec<(Ident, Vec<ModportPortDecl>)>)
    ensures
        view_modport_entries(r) == view_modport_entries(*v),
    decreases v,
{
    let mut out: Vec<(Ident, Vec<ModportPortDecl>)> = Vec::new();
    let mut i: usize = 0;
    while i < v.len()
        invariant
            i <= v@.len(),
            out@.len() == i,
            forall|j: int| 0 <= j < i ==> view_modport_entry(#[trigger] out@[j]) == view_modport_entry(v@[j]),
        decreases v@.len() - i,
    {
        proof {
            axiom_vec_index_decreases(*v, i as int);
        }
        let x = copy_modport_entry(&v[i]);
        out.push(x);
        i = i + 1;
    }
    assert(view_modport_entries(out) =~= view_modport_entries(*v));
    out
}

pub open spec fn view_port_decls(v: Vec<PortDecl>) -> Seq<SpecPortDecl>
    decreases v,
{
    Seq::new(v@.len(), |i: int| if 0 <= i < v@.len() { view_port_decl(v@[i]) } else { arbitrary() })
}

pub fn copy_port_decls(v: &Vec<PortDecl>) -> (r: Vec<PortDecl>)
    ensures
        view_port_decls(r) == view_port_decls(*v),
    decreases v,
{
    let mut out: Vec<PortDecl> = Vec::new();
    let mut i: usize = 0;
    while i < v.len()
        invariant
            i <= v@.len(),
            out@.len() == i,
            forall|j: int| 0 <= j < i ==> view_port_decl(#[trigger] out@[j]) == view_port_decl(v@[j]),
        decreases v@.len() - i,
    {
        proof {
            axiom_vec_index_decreases(*v, i as int);
        }
        let x = copy_port_decl(&v[i]);
        out.push(x);
        i = i + 1;
    }
    assert(view_port_decls(out) =~= view_port_decls(*v));
    out
}

} // verus!
