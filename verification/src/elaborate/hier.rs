//! The hierarchy of an elaborated design: packages, compilation units,
//! design instantiations and the items in their scopes.

use vstd::prelude::*;
use crate::lexer::kw::Keyword;
use crate::syntax::ast::{self, Ident, Lifetime, NetPortType, PortDir};
use super::expr::{Expr, Val};
use super::ty::{Enum, Struct, Ty};

verus! {

/// The items declared in a scope, in order.
#[derive(Debug, PartialEq)]
pub struct Scope {
    pub items: Vec<HierItem>,
}

#[derive(Debug, PartialEq)]
pub struct ParamDecl {
    pub kw: Keyword,
    pub ty: Ty,
    pub name: Ident,
    pub init: Val,
}

#[derive(Debug, PartialEq)]
pub struct TypeDecl {
    pub ty: Ty,
    pub name: Ident,
}

/// One instantiation of a design with its parameters fixed: the keyword and
/// lifetime of the design's declaration, its name, and its elaborated scope.
#[derive(Debug, PartialEq)]
pub struct DesignInstantiation {
    pub kw: Keyword,
    pub lifetime: Lifetime,
    pub name: Ident,
    pub scope: Scope,
}

/// A design declaration with the instantiations elaborated from it.
#[derive(Debug, PartialEq)]
pub struct DesignDecl {
    pub instances: Vec<DesignInstantiation>,
}

/// An instance of a design: the name of the instantiated design, the name
/// of the instance, its array bounds and its ordered port connections.
#[derive(Debug, PartialEq)]
pub struct InstanceDecl {
    pub inst_name: Ident,
    pub name: Ident,
    pub dim: Vec<(i32, i32)>,
    pub port: Vec<Option<Expr>>,
}

#[derive(Debug, PartialEq)]
pub struct GenBlock {
    pub name: Option<Ident>,
    pub scope: Scope,
}

/// A loop generate construct, with one block per iteration.
#[derive(Debug, PartialEq)]
pub struct LoopGenBlock {
    pub instances: Vec<GenBlock>,
}

#[derive(Debug, PartialEq)]
pub struct ModportDecl {
    pub name: Ident,
    pub scope: Scope,
}

#[derive(Debug, PartialEq)]
pub struct DataPortDecl {
    pub dir: PortDir,
    pub net: NetPortType,
    pub ty: Ty,
    pub name: Ident,
    pub init: Option<Box<ast::Expr>>,
}

/// An interface port: the name of the interface, of the modport if one is
/// named, the array bounds, and the name of the port.
#[derive(Debug, PartialEq)]
pub struct InterfacePortDecl {
    pub inst_name: Ident,
    pub modport: Option<Ident>,
    pub dim: Vec<(i32, i32)>,
    pub name: Ident,
}

#[derive(Debug, PartialEq)]
pub enum HierItem {
    Param(ParamDecl),
    Type(TypeDecl),
    Design(DesignDecl),
    Instance(InstanceDecl),
    /// An item kept as it was written.
    Other(ast::Item),
    /// A name that needs no item of its own.
    OtherName,
    GenBlock(GenBlock),
    LoopGenBlock(LoopGenBlock),
    Modport(ModportDecl),
    /// An element of an enum type (the enum type, the element's index),
    /// visible as a name in this scope.
    Enum(Enum, usize),
    DataPort(DataPortDecl),
    InterfacePort(InterfacePortDecl),
}

#[derive(Debug, PartialEq)]
pub struct PkgDecl {
    pub name: Ident,
    pub scope: Scope,
}

#[derive(Debug, PartialEq)]
pub struct Unit {
    pub items: Vec<HierItem>,
}

/// An elaborated design: its struct and enum types, its packages and its
/// compilation units.
#[derive(Debug, PartialEq)]
pub struct Source {
    pub structs: Vec<Struct>,
    pub enums: Vec<Enum>,
    pub pkgs: Vec<PkgDecl>,
    pub units: Vec<Unit>,
}

} // verus!
