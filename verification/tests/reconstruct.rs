use lib::elaborate::expr::{Expr as IrExpr, ExprKind as IrExprKind, Val};
use lib::elaborate::hier::{
    DataPortDecl, DesignDecl as IrDesignDecl, DesignInstantiation, GenBlock as IrGenBlock, HierItem,
    InstanceDecl, InterfacePortDecl, LoopGenBlock, ModportDecl, ParamDecl as IrParamDecl,
    PkgDecl as IrPkgDecl, Scope as IrScope, Source, TypeDecl, Unit,
};
use lib::elaborate::reconstruct::{reconstruct, reconstruct_int, Reconstructor};
use lib::elaborate::ty::{Enum, IntTy, Struct, Ty};
use lib::lexer::kw::Keyword;
use lib::number::{LogicNumber, LogicVec};
use lib::source::{Span, Spanned};
use lib::syntax::ast::{
    AggrDecl, AggrMember, AggrType, DataType, DataTypeKind, DeclAssign, DesignDecl, Dim, DimKind,
    EnumDecl, Expr, ExprKind, GenBlock, HierId, HierInst, HierInstantiation, Ident, IfGen, IntVecTy,
    Item, Lifetime, ModportPortDecl, ModportSimplePort, NetPortType, ParamDecl, PkgDecl, PortConn,
    PortDecl, PortDir, Scope, Signing, UnaryOp,
};
use lib::syntax::tokens::TokenKind;

fn sp(start: usize) -> Span {
    Span { start, end: start + 1 }
}

fn id(s: &str) -> Ident {
    Ident { value: s.to_string(), span: Span::none() }
}

fn id_at(s: &str, span: Span) -> Ident {
    Ident { value: s.to_string(), span }
}

fn lv(value: i64) -> LogicVec {
    LogicVec::from(32, true, value)
}

fn lit_of(value: LogicVec, sized: bool, span: Span) -> Expr {
    Spanned {
        value: ExprKind::Literal(Spanned {
            value: TokenKind::IntegerLiteral(LogicNumber { value, sized }),
            span,
        }),
        span,
    }
}

fn lit(v: i64, span: Span) -> Expr {
    lit_of(lv(v), false, span)
}

fn neg(e: Expr, span: Span) -> Expr {
    Spanned { value: ExprKind::Unary(UnaryOp::Sub, Box::new(e)), span }
}

fn range(ub: Expr, lb: Expr, span: Span) -> Dim {
    Spanned { value: DimKind::Range(Box::new(ub), Box::new(lb)), span }
}

fn global() -> Scope {
    Scope::Name(None, Box::new(id("global_types")))
}

fn dt(value: DataTypeKind, span: Span) -> DataType {
    Spanned { value, span }
}

fn one_bit_true() -> Expr {
    lit_of(LogicVec::from(1, false, 1), true, Span::none())
}

fn empty_source() -> Source {
    Source { structs: Vec::new(), enums: Vec::new(), pkgs: Vec::new(), units: Vec::new() }
}

fn four_state(width: usize) -> IntTy {
    IntTy::SimpleVec(width, false, false)
}

fn color_enum() -> Enum {
    Enum {
        base: four_state(2),
        elements: vec![
            (id_at("RED", sp(10)), LogicVec::from(2, false, 0)),
            (id_at("GREEN", sp(20)), LogicVec::from(2, false, 1)),
        ],
    }
}

fn name_expr(name: &str, span: Span) -> IrExpr {
    Spanned {
        value: IrExprKind::HierName(None, Spanned { value: HierId::Name(Box::new(id(name))), span }),
        span,
    }
}

// ---------------------------------------------------------------------------
// reconstruct_int and reconstruct_const

#[test]
fn int_positive_is_unsized_literal() {
    assert_eq!(reconstruct_int(5, sp(3)), lit(5, sp(3)));
}

#[test]
fn int_zero_is_literal() {
    assert_eq!(reconstruct_int(0, sp(0)), lit(0, sp(0)));
}

#[test]
fn int_negative_is_negated_magnitude() {
    assert_eq!(reconstruct_int(-3, sp(1)), neg(lit(3, sp(1)), sp(1)));
}

#[test]
fn int_extremes() {
    assert_eq!(reconstruct_int(i32::MAX, sp(1)), lit(i32::MAX as i64, sp(1)));
    assert_eq!(reconstruct_int(i32::MIN + 1, sp(1)), neg(lit(i32::MAX as i64, sp(1)), sp(1)));
}

#[test]
fn const_is_sized_literal_of_the_vector() {
    let src = empty_source();
    let r = Reconstructor { source: &src, global_qualify: false };
    let v = LogicVec::from(8, false, 200);
    assert_eq!(r.reconstruct_const(&v, sp(4)), lit_of(v, true, sp(4)));
}

/// The integer a vector holds.
fn vec_value(v: &LogicVec) -> i128 {
    let mut m: i128 = 0;
    for limb in v.magnitude.iter().rev() {
        m = m * (1i128 << 64) + *limb as i128;
    }
    if v.negative { -m } else { m }
}

/// The expression written for an integer denotes that integer.
fn denoted(e: &Expr) -> Option<i128> {
    match &e.value {
        ExprKind::Literal(t) => match &t.value {
            TokenKind::IntegerLiteral(n) => Some(vec_value(&n.value)),
            _ => None,
        },
        ExprKind::Unary(UnaryOp::Sub, inner) => denoted(inner).map(|v| -v),
        ExprKind::Unary(UnaryOp::Add, inner) => denoted(inner),
        _ => None,
    }
}

#[test]
fn law_int_denotes_value_on_samples() {
    for v in [0, 1, -1, 42, -42, i32::MAX, i32::MIN + 1, -1000000] {
        assert_eq!(denoted(&reconstruct_int(v, Span::none())), Some(v as i128));
    }
}

// ---------------------------------------------------------------------------
// Types

#[test]
fn ty_int_logic_bit() {
    let src = empty_source();
    let r = Reconstructor { source: &src, global_qualify: false };
    assert_eq!(
        r.reconstruct_ty_int(&IntTy::Logic(true, false), sp(2)),
        dt(DataTypeKind::IntVec(IntVecTy::Bit, Signing::Unsigned, vec![]), sp(2)),
    );
    assert_eq!(
        r.reconstruct_ty_int(&IntTy::Logic(false, true), sp(2)),
        dt(DataTypeKind::IntVec(IntVecTy::Logic, Signing::Signed, vec![]), sp(2)),
    );
}

#[test]
fn ty_int_vector_gets_range() {
    let src = empty_source();
    let r = Reconstructor { source: &src, global_qualify: false };
    assert_eq!(
        r.reconstruct_ty_int(&IntTy::SimpleVec(8, false, true), sp(5)),
        dt(
            DataTypeKind::IntVec(IntVecTy::Logic, Signing::Signed, vec![range(lit(7, sp(5)), lit(0, sp(5)), sp(5))]),
            sp(5),
        ),
    );
}

#[test]
fn ty_int_arrays_outermost_first() {
    let src = empty_source();
    let r = Reconstructor { source: &src, global_qualify: false };
    let ty = IntTy::Array(Box::new(IntTy::Array(Box::new(IntTy::SimpleVec(4, true, false)), 0, -2)), 3, 0);
    assert_eq!(
        r.reconstruct_ty_int(&ty, sp(1)),
        dt(
            DataTypeKind::IntVec(
                IntVecTy::Bit,
                Signing::Unsigned,
                vec![
                    range(lit(3, sp(1)), lit(0, sp(1)), sp(1)),
                    range(lit(0, sp(1)), lit(-2, sp(1)), sp(1)),
                    range(lit(3, sp(1)), lit(0, sp(1)), sp(1)),
                ],
            ),
            sp(1),
        ),
    );
}

fn plain_struct() -> Struct {
    Struct { members: vec![], sign: false }
}

fn signed_struct() -> Struct {
    Struct { members: vec![], sign: true }
}

fn two_structs() -> Source {
    let mut src = empty_source();
    src.structs.push(plain_struct());
    src.structs.push(signed_struct());
    src.enums.push(color_enum());
    src
}

#[test]
fn ty_int_struct_named_by_position() {
    let src = two_structs();
    let r = Reconstructor { source: &src, global_qualify: false };
    assert_eq!(
        r.reconstruct_ty_int(&IntTy::Struct(Box::new(signed_struct())), sp(1)),
        dt(DataTypeKind::HierName(None, id("struct_1"), vec![]), sp(1)),
    );
    assert_eq!(
        r.reconstruct_ty_int(&IntTy::Struct(Box::new(plain_struct())), sp(1)),
        dt(DataTypeKind::HierName(None, id("struct_0"), vec![]), sp(1)),
    );
}

#[test]
fn ty_int_qualified_reference() {
    let src = two_structs();
    let r = Reconstructor { source: &src, global_qualify: true };
    assert_eq!(
        r.reconstruct_ty_int(&IntTy::Array(Box::new(IntTy::Enum(Box::new(color_enum()))), 1, 0), sp(1)),
        dt(
            DataTypeKind::HierName(Some(global()), id("enum_0"), vec![range(lit(1, sp(1)), lit(0, sp(1)), sp(1))]),
            sp(1),
        ),
    );
}

#[test]
fn ty_int_same_types_share_a_name() {
    // Two struct types that are the same are both named after the first.
    let mut src = two_structs();
    src.structs.push(plain_struct());
    src.enums.push(color_enum());
    let r = Reconstructor { source: &src, global_qualify: false };
    assert_eq!(
        r.reconstruct_ty_int(&IntTy::Struct(Box::new(plain_struct())), sp(1)),
        dt(DataTypeKind::HierName(None, id("struct_0"), vec![]), sp(1)),
    );
    assert_eq!(
        r.reconstruct_ty_int(&IntTy::Enum(Box::new(color_enum())), sp(1)),
        dt(DataTypeKind::HierName(None, id("enum_0"), vec![]), sp(1)),
    );
    let units = reconstruct(&src);
    match &units[0][0] {
        Item::PkgDecl(p) => assert_eq!(p.items.len(), 5),
        _ => panic!("not the global package"),
    }
}

#[test]
fn wide_constants_pass_through() {
    // A constant of more than 128 bits is written as it is.
    let src = empty_source();
    let r = Reconstructor { source: &src, global_qualify: false };
    let wide = LogicVec { width: 200, signed: false, negative: false, magnitude: vec![1, 2, 3, 4] };
    let same = LogicVec { width: 200, signed: false, negative: false, magnitude: vec![1, 2, 3, 4] };
    assert_eq!(r.reconstruct_val_int(&four_state(200), &wide, sp(1)), lit_of(same, true, sp(1)));
}

#[test]
fn ty_int_numbers_past_nine() {
    let mut src = empty_source();
    let numbered = |i: usize| Struct { members: vec![(IntTy::Logic(false, false), id(&format!("m{}", i)), None)], sign: false };
    for i in 0..12 {
        src.structs.push(numbered(i));
    }
    let r = Reconstructor { source: &src, global_qualify: false };
    assert_eq!(
        r.reconstruct_ty_int(&IntTy::Struct(Box::new(numbered(11))), sp(1)),
        dt(DataTypeKind::HierName(None, id("struct_11"), vec![]), sp(1)),
    );
}

#[test]
fn ty_plain_kinds() {
    let src = empty_source();
    let r = Reconstructor { source: &src, global_qualify: false };
    assert_eq!(r.reconstruct_ty(&Ty::Type, sp(1)), (dt(DataTypeKind::Type, sp(1)), vec![]));
    assert_eq!(r.reconstruct_ty(&Ty::String, sp(1)), (dt(DataTypeKind::String, sp(1)), vec![]));
    assert_eq!(
        r.reconstruct_ty(&Ty::Int(IntTy::Logic(false, false)), sp(1)),
        (dt(DataTypeKind::IntVec(IntVecTy::Logic, Signing::Unsigned, vec![]), sp(1)), vec![]),
    );
}

#[test]
fn law_type_dims_kept_on_sample() {
    let src = empty_source();
    let r = Reconstructor { source: &src, global_qualify: false };
    let ty = IntTy::Array(Box::new(IntTy::Array(Box::new(IntTy::SimpleVec(16, false, false)), 5, 2)), -1, 7);
    let d = r.reconstruct_ty_int(&ty, Span::none());
    let dims = match d.value {
        DataTypeKind::IntVec(_, _, dims) => dims,
        _ => panic!("not a vector"),
    };
    let bounds: Vec<(i128, i128)> = dims
        .iter()
        .map(|d| match &d.value {
            DimKind::Range(a, b) => (denoted(a).unwrap(), denoted(b).unwrap()),
            _ => panic!("not a range"),
        })
        .collect();
    assert_eq!(bounds, vec![(-1, 7), (5, 2), (15, 0)]);
}

// ---------------------------------------------------------------------------
// Values and expressions

#[test]
fn val_int_vector_is_const() {
    let src = empty_source();
    let r = Reconstructor { source: &src, global_qualify: false };
    let v = LogicVec::from(4, false, 9);
    assert_eq!(r.reconstruct_val_int(&four_state(4), &v, sp(1)), lit_of(v, true, sp(1)));
}

#[test]
fn val_int_enum_is_cast() {
    let src = two_structs();
    let r = Reconstructor { source: &src, global_qualify: true };
    let v = LogicVec::from(2, false, 1);
    let ty = dt(DataTypeKind::HierName(Some(global()), id("enum_0"), vec![]), sp(1));
    assert_eq!(
        r.reconstruct_val_int(&IntTy::Enum(Box::new(color_enum())), &v, sp(1)),
        Spanned {
            value: ExprKind::TypeCast(
                Box::new(Spanned { value: ExprKind::Type(Box::new(ty)), span: sp(1) }),
                Box::new(lit_of(v, true, sp(1))),
            ),
            span: sp(1),
        },
    );
}

#[test]
fn val_of_each_kind() {
    let src = empty_source();
    let r = Reconstructor { source: &src, global_qualify: false };
    assert_eq!(
        r.reconstruct_val(&Ty::Type, &Val::Type(Ty::String), sp(2)),
        Spanned { value: ExprKind::Type(Box::new(dt(DataTypeKind::String, sp(2)))), span: sp(2) },
    );
    assert_eq!(
        r.reconstruct_val(&Ty::FixStr(3), &Val::FixStr("abc".to_string()), sp(2)),
        Spanned {
            value: ExprKind::Literal(Spanned { value: TokenKind::StringLiteral("abc".to_string()), span: sp(2) }),
            span: sp(2),
        },
    );
    let v = LogicVec::from(8, true, -5);
    assert_eq!(r.reconstruct_val(&Ty::Int(four_state(8)), &Val::Int(v), sp(2)), lit_of(LogicVec::from(8, true, -5), true, sp(2)));
}

#[test]
fn expr_name_under_unary() {
    let src = empty_source();
    let r = Reconstructor { source: &src, global_qualify: false };
    let e = Spanned { value: IrExprKind::Unary(UnaryOp::Not, Box::new(name_expr("a", sp(4)))), span: sp(3) };
    assert_eq!(
        r.reconstruct_expr(&e),
        Spanned {
            value: ExprKind::Unary(
                UnaryOp::Not,
                Box::new(Spanned { value: ExprKind::HierName(None, HierId::Name(Box::new(id("a")))), span: sp(4) }),
            ),
            span: sp(3),
        },
    );
}

#[test]
fn expr_keeps_scope_and_member_names() {
    let src = empty_source();
    let r = Reconstructor { source: &src, global_qualify: false };
    let scope = Scope::Name(None, Box::new(id("pkg")));
    let name = HierId::Member(Box::new(HierId::Name(Box::new(id("a")))), Box::new(id("b")));
    let e = Spanned {
        value: IrExprKind::HierName(
            Some(Scope::Name(None, Box::new(id("pkg")))),
            Spanned {
                value: HierId::Member(Box::new(HierId::Name(Box::new(id("a")))), Box::new(id("b")))
                ,
                span: sp(9),
            },
        ),
        span: sp(8),
    };
    assert_eq!(r.reconstruct_expr(&e), Spanned { value: ExprKind::HierName(Some(scope), name), span: sp(8) });
}

// ---------------------------------------------------------------------------
// Enums and structs

#[test]
fn enum_members_prefixed() {
    let src = empty_source();
    let r = Reconstructor { source: &src, global_qualify: false };
    let e = color_enum();
    let got = r.reconstruct_enum(&e, "enum_0");
    let base = dt(
        DataTypeKind::IntVec(IntVecTy::Logic, Signing::Unsigned, vec![range(lit(1, Span::none()), lit(0, Span::none()), Span::none())]),
        Span::none(),
    );
    assert_eq!(
        got,
        EnumDecl {
            ty: Some(Box::new(base)),
            members: vec![
                DeclAssign {
                    name: id_at("enum_0_RED", sp(10)),
                    dim: vec![],
                    init: Some(Box::new(lit_of(LogicVec::from(2, false, 0), true, Span::none()))),
                },
                DeclAssign {
                    name: id_at("enum_0_GREEN", sp(20)),
                    dim: vec![],
                    init: Some(Box::new(lit_of(LogicVec::from(2, false, 1), true, Span::none()))),
                },
            ],
        },
    );
}

#[test]
fn struct_members_and_defaults() {
    let src = empty_source();
    let r = Reconstructor { source: &src, global_qualify: false };
    let s = Struct {
        members: vec![
            (IntTy::Logic(false, false), id("valid"), None),
            (four_state(3), id("count"), Some(LogicVec::from(3, false, 5))),
        ],
        sign: true,
    };
    assert_eq!(
        r.reconstruct_struct(&s),
        AggrDecl {
            kind: AggrType::Struct,
            packed: true,
            sign: Signing::Signed,
            members: vec![
                AggrMember {
                    ty: dt(DataTypeKind::IntVec(IntVecTy::Logic, Signing::Unsigned, vec![]), Span::none()),
                    list: vec![DeclAssign { name: id("valid"), dim: vec![], init: None }],
                },
                AggrMember {
                    ty: dt(
                        DataTypeKind::IntVec(
                            IntVecTy::Logic,
                            Signing::Unsigned,
                            vec![range(lit(2, Span::none()), lit(0, Span::none()), Span::none())],
                        ),
                        Span::none(),
                    ),
                    list: vec![DeclAssign {
                        name: id("count"),
                        dim: vec![],
                        init: Some(Box::new(lit_of(LogicVec::from(3, false, 5), true, Span::none()))),
                    }],
                },
            ],
        },
    );
}

// ---------------------------------------------------------------------------
// Items

fn one_item(r: &Reconstructor, item: &HierItem) -> Vec<Item> {
    let mut list = Vec::new();
    r.reconstruct_item(item, &mut list);
    list
}

#[test]
fn item_param() {
    let src = empty_source();
    let r = Reconstructor { source: &src, global_qualify: true };
    let item = HierItem::Param(IrParamDecl {
        kw: Keyword::Localparam,
        ty: Ty::Int(four_state(8)),
        name: id("WIDTH"),
        init: Val::Int(LogicVec::from(8, false, 16)),
    });
    let ty = dt(
        DataTypeKind::IntVec(IntVecTy::Logic, Signing::Unsigned, vec![range(lit(7, Span::none()), lit(0, Span::none()), Span::none())]),
        Span::none(),
    );
    assert_eq!(
        one_item(&r, &item),
        vec![Item::ParamDecl(Box::new(ParamDecl {
            kw: Keyword::Localparam,
            ty: Some(Box::new(ty)),
            list: vec![DeclAssign {
                name: id("WIDTH"),
                dim: vec![],
                init: Some(Box::new(lit_of(LogicVec::from(8, false, 16), true, Span::none()))),
            }],
        }))],
    );
}

#[test]
fn item_typedef() {
    let src = empty_source();
    let r = Reconstructor { source: &src, global_qualify: true };
    let item = HierItem::Type(TypeDecl { ty: Ty::String, name: id("str_t") });
    assert_eq!(
        one_item(&r, &item),
        vec![Item::Typedef(Box::new(dt(DataTypeKind::String, Span::none())), Box::new(id("str_t")), vec![])],
    );
}

#[test]
fn item_instance_with_bounds_and_ports() {
    let src = empty_source();
    let r = Reconstructor { source: &src, global_qualify: true };
    let item = HierItem::Instance(InstanceDecl {
        inst_name: id("adder"),
        name: id("u_add"),
        dim: vec![(1, -2)],
        port: vec![Some(name_expr("a", sp(5))), None],
    });
    let n = Span::none();
    assert_eq!(
        one_item(&r, &item),
        vec![Item::HierInstantiation(Box::new(HierInstantiation {
            name: id("adder"),
            inst: vec![HierInst {
                name: id("u_add"),
                dim: vec![range(lit(1, n), neg(lit(2, n), n), n)],
                ports: PortConn::Ordered(vec![
                    Some(Box::new(Spanned { value: ExprKind::HierName(None, HierId::Name(Box::new(id("a")))), span: sp(5) })),
                    None,
                ]),
            }],
        }))],
    );
}

#[test]
fn item_other_copied_and_name_dropped() {
    let src = empty_source();
    let r = Reconstructor { source: &src, global_qualify: true };
    let kept = Item::Typedef(Box::new(dt(DataTypeKind::Type, sp(1))), Box::new(id("t")), vec![]);
    let same = Item::Typedef(Box::new(dt(DataTypeKind::Type, sp(1))), Box::new(id("t")), vec![]);
    assert_eq!(one_item(&r, &HierItem::Other(kept)), vec![same]);
    assert_eq!(one_item(&r, &HierItem::OtherName), vec![]);
}

#[test]
fn item_gen_block_is_if_one() {
    let src = empty_source();
    let r = Reconstructor { source: &src, global_qualify: true };
    let item = HierItem::GenBlock(IrGenBlock {
        name: Some(id("g")),
        scope: IrScope { items: vec![HierItem::Type(TypeDecl { ty: Ty::Type, name: id("t") }), HierItem::OtherName] },
    });
    assert_eq!(
        one_item(&r, &item),
        vec![Item::IfGen(Box::new(IfGen {
            if_block: vec![(
                one_bit_true(),
                GenBlock {
                    name: Some(id("g")),
                    items: vec![Item::Typedef(Box::new(dt(DataTypeKind::Type, Span::none())), Box::new(id("t")), vec![])],
                },
            )],
            else_block: None,
        }))],
    );
}

#[test]
fn item_loop_gen_block_one_if_per_iteration() {
    let src = empty_source();
    let r = Reconstructor { source: &src, global_qualify: true };
    let item = HierItem::LoopGenBlock(LoopGenBlock {
        instances: vec![
            IrGenBlock { name: Some(id("g[0]")), scope: IrScope { items: vec![] } },
            IrGenBlock { name: Some(id("g[1]")), scope: IrScope { items: vec![] } },
        ],
    });
    let block = |n: &str| {
        Item::IfGen(Box::new(IfGen {
            if_block: vec![(one_bit_true(), GenBlock { name: Some(id(n)), items: vec![] })],
            else_block: None,
        }))
    };
    assert_eq!(one_item(&r, &item), vec![block("g[0]"), block("g[1]")]);
}

fn data_port(dir: PortDir, name: &str, ty: Ty) -> HierItem {
    HierItem::DataPort(DataPortDecl { dir, net: NetPortType::Wire, ty, name: id(name), init: None })
}

#[test]
fn item_modport() {
    let src = empty_source();
    let r = Reconstructor { source: &src, global_qualify: true };
    let item = HierItem::Modport(ModportDecl {
        name: id("master"),
        scope: IrScope {
            items: vec![data_port(PortDir::Output, "req", Ty::Type), data_port(PortDir::Input, "ack", Ty::Type)],
        },
    });
    assert_eq!(
        one_item(&r, &item),
        vec![Item::ModportDecl(vec![(
            id("master"),
            vec![
                ModportPortDecl::Simple(PortDir::Output, vec![ModportSimplePort::Named(id("req"))]),
                ModportPortDecl::Simple(PortDir::Input, vec![ModportSimplePort::Named(id("ack"))]),
            ],
        )])],
    );
}

#[test]
fn item_enum_element_refers_to_global_member() {
    let src = two_structs();
    let r = Reconstructor { source: &src, global_qualify: false };
    let expected = Item::ParamDecl(Box::new(ParamDecl {
        kw: Keyword::Parameter,
        ty: None,
        list: vec![DeclAssign {
            name: id_at("GREEN", sp(20)),
            dim: vec![],
            init: Some(Box::new(Spanned {
                value: ExprKind::HierName(Some(global()), HierId::Name(Box::new(id("enum_0_GREEN")))),
                span: Span::none(),
            })),
        }],
    }));
    assert_eq!(one_item(&r, &HierItem::Enum(color_enum(), 1)), vec![expected]);
}

#[test]
fn item_appends_to_list() {
    let src = empty_source();
    let r = Reconstructor { source: &src, global_qualify: true };
    let first = Item::Typedef(Box::new(dt(DataTypeKind::Type, sp(1))), Box::new(id("a")), vec![]);
    let mut list = vec![first];
    r.reconstruct_item(&HierItem::Type(TypeDecl { ty: Ty::String, name: id("b") }), &mut list);
    assert_eq!(list.len(), 2);
    assert_eq!(list[0], Item::Typedef(Box::new(dt(DataTypeKind::Type, sp(1))), Box::new(id("a")), vec![]));
}

fn sample_instantiation() -> DesignInstantiation {
    DesignInstantiation {
        kw: Keyword::Module,
        lifetime: Lifetime::Static,
        name: id("top"),
        scope: IrScope {
            items: vec![
                HierItem::Param(IrParamDecl {
                    kw: Keyword::Parameter,
                    ty: Ty::Type,
                    name: id("T"),
                    init: Val::Type(Ty::String),
                }),
                data_port(PortDir::Input, "clk", Ty::Int(IntTy::Logic(false, false))),
                HierItem::InterfacePort(InterfacePortDecl {
                    inst_name: id("bus_if"),
                    modport: Some(id("slave")),
                    dim: vec![(3, 0)],
                    name: id("bus"),
                }),
                HierItem::Type(TypeDecl { ty: Ty::String, name: id("s_t") }),
            ],
        },
    }
}

fn sample_design() -> Item {
    let n = Span::none();
    Item::DesignDecl(Box::new(DesignDecl {
        kw: Keyword::Module,
        lifetime: Lifetime::Static,
        name: id("top"),
        param: Some(vec![ParamDecl {
            kw: Keyword::Parameter,
            ty: Some(Box::new(dt(DataTypeKind::Type, n))),
            list: vec![DeclAssign {
                name: id("T"),
                dim: vec![],
                init: Some(Box::new(Spanned { value: ExprKind::Type(Box::new(dt(DataTypeKind::String, n))), span: n })),
            }],
        }]),
        port: vec![
            PortDecl::Data(
                PortDir::Input,
                NetPortType::Wire,
                Box::new(dt(DataTypeKind::IntVec(IntVecTy::Logic, Signing::Unsigned, vec![]), n)),
                vec![DeclAssign { name: id("clk"), dim: vec![], init: None }],
            ),
            PortDecl::Interface(
                Some(Box::new(id("bus_if"))),
                Some(Box::new(id("slave"))),
                vec![DeclAssign { name: id("bus"), dim: vec![range(lit(3, n), lit(0, n), n)], init: None }],
            ),
        ],
        items: vec![Item::Typedef(Box::new(dt(DataTypeKind::String, n)), Box::new(id("s_t")), vec![])],
    }))
}

#[test]
fn instantiation_splits_params_ports_items() {
    let src = empty_source();
    let r = Reconstructor { source: &src, global_qualify: true };
    assert_eq!(r.reconstruct_instantiation(&sample_instantiation()), sample_design());
}

#[test]
fn instantiation_without_params_has_none() {
    let src = empty_source();
    let r = Reconstructor { source: &src, global_qualify: true };
    let inst = DesignInstantiation {
        kw: Keyword::Interface,
        lifetime: Lifetime::Automatic,
        name: id("bus_if"),
        scope: IrScope { items: vec![HierItem::OtherName] },
    };
    assert_eq!(
        r.reconstruct_instantiation(&inst),
        Item::DesignDecl(Box::new(DesignDecl {
            kw: Keyword::Interface,
            lifetime: Lifetime::Automatic,
            name: id("bus_if"),
            param: None,
            port: vec![],
            items: vec![],
        })),
    );
}

#[test]
fn item_design_lists_each_instantiation() {
    let src = empty_source();
    let r = Reconstructor { source: &src, global_qualify: true };
    let item = HierItem::Design(IrDesignDecl { instances: vec![sample_instantiation(), sample_instantiation()] });
    assert_eq!(one_item(&r, &item), vec![sample_design(), sample_design()]);
}

// ---------------------------------------------------------------------------
// Whole designs

#[test]
fn reconstruct_empty_design() {
    let src = empty_source();
    let units = reconstruct(&src);
    assert_eq!(
        units,
        vec![vec![Item::PkgDecl(Box::new(PkgDecl { lifetime: Lifetime::Static, name: id("global_types"), items: vec![] }))]],
    );
}

#[test]
fn reconstruct_whole_design() {
    let mut src = two_structs();
    let colored = || Struct { members: vec![(IntTy::Enum(Box::new(color_enum())), id("color"), None)], sign: true };
    src.structs[1] = colored();
    src.pkgs.push(IrPkgDecl {
        name: id("p"),
        scope: IrScope { items: vec![HierItem::Type(TypeDecl { ty: Ty::Int(IntTy::Struct(Box::new(colored()))), name: id("s") })] },
    });
    src.units.push(Unit { items: vec![HierItem::Enum(color_enum(), 0)] });
    src.units.push(Unit { items: vec![] });
    let units = reconstruct(&src);
    let n = Span::none();

    assert_eq!(units.len(), 3);
    assert_eq!(units[0].len(), 2);

    // The global package: the enum, then both structs; type references inside are not qualified.
    let enum_decl = Reconstructor { source: &src, global_qualify: false }.reconstruct_enum(&src.enums[0], "enum_0");
    let global_items = vec![
        Item::Typedef(Box::new(dt(DataTypeKind::Enum(enum_decl, vec![]), n)), Box::new(id("enum_0")), vec![]),
        Item::Typedef(
            Box::new(dt(
                DataTypeKind::Aggr(AggrDecl { kind: AggrType::Struct, packed: true, sign: Signing::Unsigned, members: vec![] }, vec![]),
                n,
            )),
            Box::new(id("struct_0")),
            vec![],
        ),
        Item::Typedef(
            Box::new(dt(
                DataTypeKind::Aggr(
                    AggrDecl {
                        kind: AggrType::Struct,
                        packed: true,
                        sign: Signing::Signed,
                        members: vec![AggrMember {
                            ty: dt(DataTypeKind::HierName(None, id("enum_0"), vec![]), n),
                            list: vec![DeclAssign { name: id("color"), dim: vec![], init: None }],
                        }],
                    },
                    vec![],
                ),
                n,
            )),
            Box::new(id("struct_1")),
            vec![],
        ),
    ];
    assert_eq!(
        units[0][0],
        Item::PkgDecl(Box::new(PkgDecl { lifetime: Lifetime::Static, name: id("global_types"), items: global_items })),
    );

    // Packages come next, with qualified type references.
    assert_eq!(
        units[0][1],
        Item::PkgDecl(Box::new(PkgDecl {
            lifetime: Lifetime::Static,
            name: id("p"),
            items: vec![Item::Typedef(
                Box::new(dt(DataTypeKind::HierName(Some(global()), id("struct_1"), vec![]), n)),
                Box::new(id("s")),
                vec![],
            )],
        })),
    );

    // Then one unit per compilation unit.
    assert_eq!(units[1].len(), 1);
    assert_eq!(units[2], vec![]);
}

#[test]
fn reconstructor_method_qualifies_afterwards() {
    let src = two_structs();
    let mut r = Reconstructor { source: &src, global_qualify: false };
    let units = r.reconstruct();
    assert!(r.global_qualify);
    assert_eq!(units.len(), 1);
    assert_eq!(
        r.reconstruct_ty_int(&IntTy::Struct(Box::new(plain_struct())), n()),
        dt(DataTypeKind::HierName(Some(global()), id("struct_0"), vec![]), n()),
    );
}

fn n() -> Span {
    Span::none()
}

#[test]
fn law_references_resolve_on_sample() {
    // Every struct or enum reference written names a typedef of global_types.
    let src = two_structs();
    let units = reconstruct(&src);
    let global_names: Vec<String> = match &units[0][0] {
        Item::PkgDecl(p) => p
            .items
            .iter()
            .map(|it| match it {
                Item::Typedef(_, name, _) => name.value.clone(),
                _ => panic!("not a typedef"),
            })
            .collect(),
        _ => panic!("not the global package"),
    };
    assert_eq!(global_names, vec!["enum_0".to_string(), "struct_0".to_string(), "struct_1".to_string()]);
    let r = Reconstructor { source: &src, global_qualify: true };
    for ty in [IntTy::Struct(Box::new(plain_struct())), IntTy::Struct(Box::new(signed_struct())), IntTy::Enum(Box::new(color_enum()))] {
        match r.reconstruct_ty_int(&ty, n()).value {
            DataTypeKind::HierName(Some(scope), name, _) => {
                assert_eq!(scope, global());
                assert!(global_names.contains(&name.value));
            },
            _ => panic!("not a name"),
        }
    }
}
