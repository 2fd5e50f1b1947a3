//! Keywords of SystemVerilog (IEEE 1800) and of the Verilog standards it grew from.

use vstd::prelude::*;

verus! {

/// A reserved word of the language.
#[derive(Debug, Clone, Copy, PartialEq, Eq, Structural)]
pub enum Keyword {
    // System task identifiers that are treated as keyword
    Unit,
    Root,

    // Verilog 95
    And,
    Assign,
    Begin,
    Case,
    Casex,
    Casez,
    Deassign,
    Default,
    Defparam,
    Disable,
    Else,
    End,
    Endcase,
    Endmodule,
    Endfunction,
    Endprimitive,
    Endspecify,
    Endtable,
    Endtask,
    Event,
    For,
    Force,
    Forever,
    Fork,
    Function,
    If,
    Ifnone,
    Initial,
    Join,
    Module,
    Not,
    Or,
    Parameter,
    Primitive,
    Reg,
    Release,
    Repeat,
    Scalared,
    Specify,
    Specparam,
    Table,
    Task,
    Vectored,
    Wait,
    While,
    Xor,

    // Verilog 01-noconfig
    Automatic,
    Endgenerate,
    Generate,
    Genvar,
    Localparam,
    Noshowcancelled,
    PulsestyleOndetect,
    PulsestyleOnevent,
    Showcancelled,

    // Verilog 01
    Cell,
    Config,
    Design,
    Endconfig,
    Incdir,
    Include,
    Instance,
    Liblist,
    Library,
    Use,

    // Verilog 05

    // SV 05
    Alias,
    Assert,
    Assume,
    Before,
    Bind,
    Bins,
    Binsof,
    Break,
    Chandle,
    Class,
    Clocking,
    Const,
    Constraint,
    Context,
    Continue,
    Cover,
    Covergroup,
    Coverpoint,
    Cross,
    Dist,
    Do,
    Endclass,
    Endclocking,
    Endgroup,
    Endinterface,
    Endpackage,
    Endprogram,
    Endproperty,
    Endsequence,
    Enum,
    Expect,
    Export,
    Extends,
    Extern,
    Final,
    FirstMatch,
    Foreach,
    Forkjoin,
    Iff,
    IgnoreBins,
    IllegalBins,
    Import,
    Inside,
    Interface,
    Intersect,
    JoinAny,
    JoinNone,
    Local,
    Matches,
    Modport,
    New,
    Null,
    Package,
    Packed,
    Priority,
    Program,
    Property,
    Protected,
    Pure,
    Rand,
    Randc,
    Randcase,
    Randsequence,
    Return,
    Sequence,
    Solve,
    Static,
    String,
    Struct,
    Super,
    Tagged,
    This,
    Throughout,
    Timeprecision,
    Timeunit,
    Type,
    Typedef,
    Union,
    Unique,
    Var,
    Virtual,
    Void,
    WaitOrder,
    Wildcard,
    With,
    Within,

    // SV 09
    AcceptOn,
    Checker,
    Endchecker,
    Eventually,
    Global,
    Implies,
    Let,
    Nexttime,
    RejectOn,
    Restrict,
    SAlways,
    SEventually,
    SNexttime,
    SUntil,
    SUntilWith,
    Strong,
    SyncAcceptOn,
    SyncRejectOn,
    Unique0,
    Until,
    UntilWith,
    Untyped,
    Weak,

    // SV 12
    Implements,
    Interconnect,
    Nettype,
    Soft,

    // SV 17
    // No new keywords
}

impl Keyword {
    /// The name of the variant, as `{:?}` writes it.
    pub open spec fn spec_variant_name(self) -> Seq<char> {
        self.variant_name()@
    }

    /// The name of the variant, as `{:?}` writes it.
    #[verifier::allow_in_spec]
    pub fn variant_name(&self) -> &'static str
        returns
            (match self {
                Keyword::Unit => "Unit",
                Keyword::Root => "Root",
                Keyword::And => "And",
                Keyword::Assign => "Assign",
                Keyword::Begin => "Begin",
                Keyword::Case => "Case",
                Keyword::Casex => "Casex",
                Keyword::Casez => "Casez",
                Keyword::Deassign => "Deassign",
                Keyword::Default => "Default",
                Keyword::Defparam => "Defparam",
                Keyword::Disable => "Disable",
                Keyword::Else => "Else",
                Keyword::End => "End",
                Keyword::Endcase => "Endcase",
                Keyword::Endmodule => "Endmodule",
                Keyword::Endfunction => "Endfunction",
                Keyword::Endprimitive => "Endprimitive",
                Keyword::Endspecify => "Endspecify",
                Keyword::Endtable => "Endtable",
                Keyword::Endtask => "Endtask",
                Keyword::Event => "Event",
                Keyword::For => "For",
                Keyword::Force => "Force",
                Keyword::Forever => "Forever",
                Keyword::Fork => "Fork",
                Keyword::Function => "Function",
                Keyword::If => "If",
                Keyword::Ifnone => "Ifnone",
                Keyword::Initial => "Initial",
                Keyword::Join => "Join",
                Keyword::Module => "Module",
                Keyword::Not => "Not",
                Keyword::Or => "Or",
                Keyword::Parameter => "Parameter",
                Keyword::Primitive => "Primitive",
                Keyword::Reg => "Reg",
                Keyword::Release => "Release",
                Keyword::Repeat => "Repeat",
                Keyword::Scalared => "Scalared",
                Keyword::Specify => "Specify",
                Keyword::Specparam => "Specparam",
                Keyword::Table => "Table",
                Keyword::Task => "Task",
                Keyword::Vectored => "Vectored",
                Keyword::Wait => "Wait",
                Keyword::While => "While",
                Keyword::Xor => "Xor",
                Keyword::Automatic => "Automatic",
                Keyword::Endgenerate => "Endgenerate",
                Keyword::Generate => "Generate",
                Keyword::Genvar => "Genvar",
                Keyword::Localparam => "Localparam",
                Keyword::Noshowcancelled => "Noshowcancelled",
                Keyword::PulsestyleOndetect => "PulsestyleOndetect",
                Keyword::PulsestyleOnevent => "PulsestyleOnevent",
                Keyword::Showcancelled => "Showcancelled",
                Keyword::Cell => "Cell",
                Keyword::Config => "Config",
                Keyword::Design => "Design",
                Keyword::Endconfig => "Endconfig",
                Keyword::Incdir => "Incdir",
                Keyword::Include => "Include",
                Keyword::Instance => "Instance",
                Keyword::Liblist => "Liblist",
                Keyword::Library => "Library",
                Keyword::Use => "Use",
                Keyword::Alias => "Alias",
                Keyword::Assert => "Assert",
                Keyword::Assume => "Assume",
                Keyword::Before => "Before",
                Keyword::Bind => "Bind",
                Keyword::Bins => "Bins",
                Keyword::Binsof => "Binsof",
                Keyword::Break => "Break",
                Keyword::Chandle => "Chandle",
                Keyword::Class => "Class",
                Keyword::Clocking => "Clocking",
                Keyword::Const => "Const",
                Keyword::Constraint => "Constraint",
                Keyword::Context => "Context",
                Keyword::Continue => "Continue",
                Keyword::Cover => "Cover",
                Keyword::Covergroup => "Covergroup",
                Keyword::Coverpoint => "Coverpoint",
                Keyword::Cross => "Cross",
                Keyword::Dist => "Dist",
                Keyword::Do => "Do",
                Keyword::Endclass => "Endclass",
                Keyword::Endclocking => "Endclocking",
                Keyword::Endgroup => "Endgroup",
                Keyword::Endinterface => "Endinterface",
                Keyword::Endpackage => "Endpackage",
                Keyword::Endprogram => "Endprogram",
                Keyword::Endproperty => "Endproperty",
                Keyword::Endsequence => "Endsequence",
                Keyword::Enum => "Enum",
                Keyword::Expect => "Expect",
                Keyword::Export => "Export",
                Keyword::Extends => "Extends",
                Keyword::Extern => "Extern",
                Keyword::Final => "Final",
                Keyword::FirstMatch => "FirstMatch",
                Keyword::Foreach => "Foreach",
                Keyword::Forkjoin => "Forkjoin",
                Keyword::Iff => "Iff",
                Keyword::IgnoreBins => "IgnoreBins",
                Keyword::IllegalBins => "IllegalBins",
                Keyword::Import => "Import",
                Keyword::Inside => "Inside",
                Keyword::Interface => "Interface",
                Keyword::Intersect => "Intersect",
                Keyword::JoinAny => "JoinAny",
                Keyword::JoinNone => "JoinNone",
                Keyword::Local => "Local",
                Keyword::Matches => "Matches",
                Keyword::Modport => "Modport",
                Keyword::New => "New",
                Keyword::Null => "Null",
                Keyword::Package => "Package",
                Keyword::Packed => "Packed",
                Keyword::Priority => "Priority",
                Keyword::Program => "Program",
                Keyword::Property => "Property",
                Keyword::Protected => "Protected",
                Keyword::Pure => "Pure",
                Keyword::Rand => "Rand",
                Keyword::Randc => "Randc",
                Keyword::Randcase => "Randcase",
                Keyword::Randsequence => "Randsequence",
                Keyword::Return => "Return",
                Keyword::Sequence => "Sequence",
                Keyword::Solve => "Solve",
                Keyword::Static => "Static",
                Keyword::String => "String",
                Keyword::Struct => "Struct",
                Keyword::Super => "Super",
                Keyword::Tagged => "Tagged",
                Keyword::This => "This",
                Keyword::Throughout => "Throughout",
                Keyword::Timeprecision => "Timeprecision",
                Keyword::Timeunit => "Timeunit",
                Keyword::Type => "Type",
                Keyword::Typedef => "Typedef",
                Keyword::Union => "Union",
                Keyword::Unique => "Unique",
                Keyword::Var => "Var",
                Keyword::Virtual => "Virtual",
                Keyword::Void => "Void",
                Keyword::WaitOrder => "WaitOrder",
                Keyword::Wildcard => "Wildcard",
                Keyword::With => "With",
                Keyword::Within => "Within",
                Keyword::AcceptOn => "AcceptOn",
                Keyword::Checker => "Checker",
                Keyword::Endchecker => "Endchecker",
                Keyword::Eventually => "Eventually",
                Keyword::Global => "Global",
                Keyword::Implies => "Implies",
                Keyword::Let => "Let",
                Keyword::Nexttime => "Nexttime",
                Keyword::RejectOn => "RejectOn",
                Keyword::Restrict => "Restrict",
                Keyword::SAlways => "SAlways",
                Keyword::SEventually => "SEventually",
                Keyword::SNexttime => "SNexttime",
                Keyword::SUntil => "SUntil",
                Keyword::SUntilWith => "SUntilWith",
                Keyword::Strong => "Strong",
                Keyword::SyncAcceptOn => "SyncAcceptOn",
                Keyword::SyncRejectOn => "SyncRejectOn",
                Keyword::Unique0 => "Unique0",
                Keyword::Until => "Until",
                Keyword::UntilWith => "UntilWith",
                Keyword::Untyped => "Untyped",
                Keyword::Weak => "Weak",
                Keyword::Implements => "Implements",
                Keyword::Interconnect => "Interconnect",
                Keyword::Nettype => "Nettype",
                Keyword::Soft => "Soft",
            }),
    {
        match self {
            Keyword::Unit => "Unit",
            Keyword::Root => "Root",
            Keyword::And => "And",
            Keyword::Assign => "Assign",
            Keyword::Begin => "Begin",
            Keyword::Case => "Case",
            Keyword::Casex => "Casex",
            Keyword::Casez => "Casez",
            Keyword::Deassign => "Deassign",
            Keyword::Default => "Default",
            Keyword::Defparam => "Defparam",
            Keyword::Disable => "Disable",
            Keyword::Else => "Else",
            Keyword::End => "End",
            Keyword::Endcase => "Endcase",
            Keyword::Endmodule => "Endmodule",
            Keyword::Endfunction => "Endfunction",
            Keyword::Endprimitive => "Endprimitive",
            Keyword::Endspecify => "Endspecify",
            Keyword::Endtable => "Endtable",
            Keyword::Endtask => "Endtask",
            Keyword::Event => "Event",
            Keyword::For => "For",
            Keyword::Force => "Force",
            Keyword::Forever => "Forever",
            Keyword::Fork => "Fork",
            Keyword::Function => "Function",
            Keyword::If => "If",
            Keyword::Ifnone => "Ifnone",
            Keyword::Initial => "Initial",
            Keyword::Join => "Join",
            Keyword::Module => "Module",
            Keyword::Not => "Not",
            Keyword::Or => "Or",
            Keyword::Parameter => "Parameter",
            Keyword::Primitive => "Primitive",
            Keyword::Reg => "Reg",
            Keyword::Release => "Release",
            Keyword::Repeat => "Repeat",
            Keyword::Scalared => "Scalared",
            Keyword::Specify => "Specify",
            Keyword::Specparam => "Specparam",
            Keyword::Table => "Table",
            Keyword::Task => "Task",
            Keyword::Vectored => "Vectored",
            Keyword::Wait => "Wait",
            Keyword::While => "While",
            Keyword::Xor => "Xor",
            Keyword::Automatic => "Automatic",
            Keyword::Endgenerate => "Endgenerate",
            Keyword::Generate => "Generate",
            Keyword::Genvar => "Genvar",
            Keyword::Localparam => "Localparam",
            Keyword::Noshowcancelled => "Noshowcancelled",
            Keyword::PulsestyleOndetect => "PulsestyleOndetect",
            Keyword::PulsestyleOnevent => "PulsestyleOnevent",
            Keyword::Showcancelled => "Showcancelled",
            Keyword::Cell => "Cell",
            Keyword::Config => "Config",
            Keyword::Design => "Design",
            Keyword::Endconfig => "Endconfig",
            Keyword::Incdir => "Incdir",
            Keyword::Include => "Include",
            Keyword::Instance => "Instance",
            Keyword::Liblist => "Liblist",
            Keyword::Library => "Library",
            Keyword::Use => "Use",
            Keyword::Alias => "Alias",
            Keyword::Assert => "Assert",
            Keyword::Assume => "Assume",
            Keyword::Before => "Before",
            Keyword::Bind => "Bind",
            Keyword::Bins => "Bins",
            Keyword::Binsof => "Binsof",
            Keyword::Break => "Break",
            Keyword::Chandle => "Chandle",
            Keyword::Class => "Class",
            Keyword::Clocking => "Clocking",
            Keyword::Const => "Const",
            Keyword::Constraint => "Constraint",
            Keyword::Context => "Context",
            Keyword::Continue => "Continue",
            Keyword::Cover => "Cover",
            Keyword::Covergroup => "Covergroup",
            Keyword::Coverpoint => "Coverpoint",
            Keyword::Cross => "Cross",
            Keyword::Dist => "Dist",
            Keyword::Do => "Do",
            Keyword::Endclass => "Endclass",
            Keyword::Endclocking => "Endclocking",
            Keyword::Endgroup => "Endgroup",
            Keyword::Endinterface => "Endinterface",
            Keyword::Endpackage => "Endpackage",
            Keyword::Endprogram => "Endprogram",
            Keyword::Endproperty => "Endproperty",
            Keyword::Endsequence => "Endsequence",
            Keyword::Enum => "Enum",
            Keyword::Expect => "Expect",
            Keyword::Export => "Export",
            Keyword::Extends => "Extends",
            Keyword::Extern => "Extern",
            Keyword::Final => "Final",
            Keyword::FirstMatch => "FirstMatch",
            Keyword::Foreach => "Foreach",
            Keyword::Forkjoin => "Forkjoin",
            Keyword::Iff => "Iff",
            Keyword::IgnoreBins => "IgnoreBins",
            Keyword::IllegalBins => "IllegalBins",
            Keyword::Import => "Import",
            Keyword::Inside => "Inside",
            Keyword::Interface => "Interface",
            Keyword::Intersect => "Intersect",
            Keyword::JoinAny => "JoinAny",
            Keyword::JoinNone => "JoinNone",
            Keyword::Local => "Local",
            Keyword::Matches => "Matches",
            Keyword::Modport => "Modport",
            Keyword::New => "New",
            Keyword::Null => "Null",
            Keyword::Package => "Package",
            Keyword::Packed => "Packed",
            Keyword::Priority => "Priority",
            Keyword::Program => "Program",
            Keyword::Property => "Property",
            Keyword::Protected => "Protected",
            Keyword::Pure => "Pure",
            Keyword::Rand => "Rand",
            Keyword::Randc => "Randc",
            Keyword::Randcase => "Randcase",
            Keyword::Randsequence => "Randsequence",
            Keyword::Return => "Return",
            Keyword::Sequence => "Sequence",
            Keyword::Solve => "Solve",
            Keyword::Static => "Static",
            Keyword::String => "String",
            Keyword::Struct => "Struct",
            Keyword::Super => "Super",
            Keyword::Tagged => "Tagged",
            Keyword::This => "This",
            Keyword::Throughout => "Throughout",
            Keyword::Timeprecision => "Timeprecision",
            Keyword::Timeunit => "Timeunit",
            Keyword::Type => "Type",
            Keyword::Typedef => "Typedef",
            Keyword::Union => "Union",
            Keyword::Unique => "Unique",
            Keyword::Var => "Var",
            Keyword::Virtual => "Virtual",
            Keyword::Void => "Void",
            Keyword::WaitOrder => "WaitOrder",
            Keyword::Wildcard => "Wildcard",
            Keyword::With => "With",
            Keyword::Within => "Within",
            Keyword::AcceptOn => "AcceptOn",
            Keyword::Checker => "Checker",
            Keyword::Endchecker => "Endchecker",
            Keyword::Eventually => "Eventually",
            Keyword::Global => "Global",
            Keyword::Implies => "Implies",
            Keyword::Let => "Let",
            Keyword::Nexttime => "Nexttime",
            Keyword::RejectOn => "RejectOn",
            Keyword::Restrict => "Restrict",
            Keyword::SAlways => "SAlways",
            Keyword::SEventually => "SEventually",
            Keyword::SNexttime => "SNexttime",
            Keyword::SUntil => "SUntil",
            Keyword::SUntilWith => "SUntilWith",
            Keyword::Strong => "Strong",
            Keyword::SyncAcceptOn => "SyncAcceptOn",
            Keyword::SyncRejectOn => "SyncRejectOn",
            Keyword::Unique0 => "Unique0",
            Keyword::Until => "Until",
            Keyword::UntilWith => "UntilWith",
            Keyword::Untyped => "Untyped",
            Keyword::Weak => "Weak",
            Keyword::Implements => "Implements",
            Keyword::Interconnect => "Interconnect",
            Keyword::Nettype => "Nettype",
            Keyword::Soft => "Soft",
        }
    }

    /// The text shown for a keyword: its source spelling for the keywords
    /// that have one here (`module`, `interface`), and otherwise the name of
    /// the variant followed by ` unimp`.
    pub open spec fn spec_display(self) -> Seq<char> {
        match self {
            Keyword::Module => "module"@,
            Keyword::Interface => "interface"@,
            _ => self.spec_variant_name() + " unimp"@,
        }
    }

    /// The text shown for a keyword (see `spec_display`).
    pub fn to_string(&self) -> (s: String)
        ensures
            s@ == self.spec_display(),
    {
        match self {
            Keyword::Module => String::from_str("module"),
            Keyword::Interface => String::from_str("interface"),
            _ => {
                let mut s = String::from_str(self.variant_name());
                s.append(" unimp");
                s
            },
        }
    }
}

/// Recovers a keyword from its display text.
pub open spec fn keyword_of_display(s: Seq<char>) -> Keyword {
    if s.len() == 6 {
        Keyword::Module
    } else if s.len() == 8 {
        if s[0] == 'D' {
            Keyword::Do
        } else if s[0] == 'I' {
            Keyword::If
        } else {
            Keyword::Or
        }
    } else if s.len() == 9 {
        if s[0] == 'A' {
            Keyword::And
        } else if s[0] == 'E' {
            Keyword::End
        } else if s[0] == 'F' {
            Keyword::For
        } else if s[0] == 'I' {
            Keyword::Iff
        } else if s[0] == 'L' {
            Keyword::Let
        } else if s[0] == 'N' {
            if s[1] == 'e' {
                Keyword::New
            } else {
                Keyword::Not
            }
        } else if s[0] == 'R' {
            Keyword::Reg
        } else if s[0] == 'U' {
            Keyword::Use
        } else if s[0] == 'V' {
            Keyword::Var
        } else if s[0] == 'X' {
            Keyword::Xor
        } else {
            Keyword::Interface
        }
    } else if s.len() == 10 {
        if s[0] == 'B' {
            if s[3] == 'd' {
                Keyword::Bind
            } else {
                Keyword::Bins
            }
        } else if s[0] == 'C' {
            if s[1] == 'a' {
                Keyword::Case
            } else {
                Keyword::Cell
            }
        } else if s[0] == 'D' {
            Keyword::Dist
        } else if s[0] == 'E' {
            if s[1] == 'l' {
                Keyword::Else
            } else {
                Keyword::Enum
            }
        } else if s[0] == 'F' {
            Keyword::Fork
        } else if s[0] == 'J' {
            Keyword::Join
        } else if s[0] == 'N' {
            Keyword::Null
        } else if s[0] == 'P' {
            Keyword::Pure
        } else if s[0] == 'R' {
            if s[1] == 'a' {
                Keyword::Rand
            } else {
                Keyword::Root
            }
        } else if s[0] == 'S' {
            Keyword::Soft
        } else if s[0] == 'T' {
            if s[1] == 'a' {
                Keyword::Task
            } else if s[1] == 'h' {
                Keyword::This
            } else {
                Keyword::Type
            }
        } else if s[0] == 'U' {
            Keyword::Unit
        } else if s[0] == 'V' {
            Keyword::Void
        } else {
            if s[1] == 'a' {
                Keyword::Wait
            } else if s[1] == 'e' {
                Keyword::Weak
            } else {
                Keyword::With
            }
        }
    } else if s.len() == 11 {
        if s[0] == 'A' {
            Keyword::Alias
        } else if s[0] == 'B' {
            if s[1] == 'e' {
                Keyword::Begin
            } else {
                Keyword::Break
            }
        } else if s[0] == 'C' {
            if s[1] == 'a' {
                if s[4] == 'x' {
                    Keyword::Casex
                } else {
                    Keyword::Casez
                }
            } else if s[1] == 'l' {
                Keyword::Class
            } else if s[1] == 'o' {
                if s[2] == 'n' {
                    Keyword::Const
                } else {
                    Keyword::Cover
                }
            } else {
                Keyword::Cross
            }
        } else if s[0] == 'E' {
            Keyword::Event
        } else if s[0] == 'F' {
            if s[1] == 'i' {
                Keyword::Final
            } else {
                Keyword::Force
            }
        } else if s[0] == 'L' {
            Keyword::Local
        } else if s[0] == 'R' {
            Keyword::Randc
        } else if s[0] == 'S' {
            if s[1] == 'o' {
                Keyword::Solve
            } else {
                Keyword::Super
            }
        } else if s[0] == 'T' {
            Keyword::Table
        } else if s[0] == 'U' {
            if s[2] == 'i' {
                Keyword::Union
            } else {
                Keyword::Until
            }
        } else {
            Keyword::While
        }
    } else if s.len() == 12 {
        if s[0] == 'A' {
            if s[3] == 'e' {
                Keyword::Assert
            } else if s[3] == 'i' {
                Keyword::Assign
            } else {
                Keyword::Assume
            }
        } else if s[0] == 'B' {
            if s[1] == 'e' {
                Keyword::Before
            } else {
                Keyword::Binsof
            }
        } else if s[0] == 'C' {
            Keyword::Config
        } else if s[0] == 'D' {
            Keyword::Design
        } else if s[0] == 'E' {
            if s[2] == 'p' {
                if s[3] == 'e' {
                    Keyword::Expect
                } else {
                    Keyword::Export
                }
            } else {
                Keyword::Extern
            }
        } else if s[0] == 'G' {
            if s[1] == 'e' {
                Keyword::Genvar
            } else {
                Keyword::Global
            }
        } else if s[0] == 'I' {
            if s[1] == 'f' {
                Keyword::Ifnone
            } else if s[1] == 'm' {
                Keyword::Import
            } else {
                if s[2] == 'c' {
                    Keyword::Incdir
                } else {
                    Keyword::Inside
                }
            }
        } else if s[0] == 'P' {
            Keyword::Packed
        } else if s[0] == 'R' {
            if s[2] == 'p' {
                Keyword::Repeat
            } else {
                Keyword::Return
            }
        } else if s[0] == 'S' {
            if s[1] == 'U' {
                Keyword::SUntil
            } else {
                if s[2] == 'a' {
                    Keyword::Static
                } else {
                    if s[3] == 'i' {
                        Keyword::String
                    } else if s[3] == 'o' {
                        Keyword::Strong
                    } else {
                        Keyword::Struct
                    }
                }
            }
        } else if s[0] == 'T' {
            Keyword::Tagged
        } else if s[0] == 'U' {
            Keyword::Unique
        } else {
            Keyword::Within
        }
    } else if s.len() == 13 {
        if s[0] == 'C' {
            if s[1] == 'h' {
                if s[2] == 'a' {
                    Keyword::Chandle
                } else {
                    Keyword::Checker
                }
            } else {
                Keyword::Context
            }
        } else if s[0] == 'D' {
            if s[1] == 'e' {
                Keyword::Default
            } else {
                Keyword::Disable
            }
        } else if s[0] == 'E' {
            if s[1] == 'n' {
                if s[3] == 'c' {
                    Keyword::Endcase
                } else {
                    Keyword::Endtask
                }
            } else {
                Keyword::Extends
            }
        } else if s[0] == 'F' {
            if s[4] == 'a' {
                Keyword::Foreach
            } else {
                Keyword::Forever
            }
        } else if s[0] == 'I' {
            if s[1] == 'm' {
                Keyword::Implies
            } else {
                if s[2] == 'c' {
                    Keyword::Include
                } else {
                    Keyword::Initial
                }
            }
        } else if s[0] == 'J' {
            Keyword::JoinAny
        } else if s[0] == 'L' {
            if s[3] == 'l' {
                Keyword::Liblist
            } else {
                Keyword::Library
            }
        } else if s[0] == 'M' {
            if s[1] == 'a' {
                Keyword::Matches
            } else {
                Keyword::Modport
            }
        } else if s[0] == 'N' {
            Keyword::Nettype
        } else if s[0] == 'P' {
            if s[1] == 'a' {
                Keyword::Package
            } else {
                Keyword::Program
            }
        } else if s[0] == 'R' {
            Keyword::Release
        } else if s[0] == 'S' {
            if s[1] == 'A' {
                Keyword::SAlways
            } else {
                Keyword::Specify
            }
        } else if s[0] == 'T' {
            Keyword::Typedef
        } else if s[0] == 'U' {
            if s[2] == 'i' {
                Keyword::Unique0
            } else {
                Keyword::Untyped
            }
        } else {
            Keyword::Virtual
        }
    } else if s.len() == 14 {
        if s[0] == 'A' {
            Keyword::AcceptOn
        } else if s[0] == 'C' {
            if s[1] == 'l' {
                Keyword::Clocking
            } else {
                Keyword::Continue
            }
        } else if s[0] == 'D' {
            if s[2] == 'a' {
                Keyword::Deassign
            } else {
                Keyword::Defparam
            }
        } else if s[0] == 'E' {
            if s[3] == 'c' {
                Keyword::Endclass
            } else if s[3] == 'g' {
                Keyword::Endgroup
            } else {
                Keyword::Endtable
            }
        } else if s[0] == 'F' {
            if s[1] == 'o' {
                Keyword::Forkjoin
            } else {
                Keyword::Function
            }
        } else if s[0] == 'G' {
            Keyword::Generate
        } else if s[0] == 'I' {
            Keyword::Instance
        } else if s[0] == 'J' {
            Keyword::JoinNone
        } else if s[0] == 'N' {
            Keyword::Nexttime
        } else if s[0] == 'P' {
            if s[2] == 'i' {
                Keyword::Priority
            } else {
                Keyword::Property
            }
        } else if s[0] == 'R' {
            if s[1] == 'a' {
                Keyword::Randcase
            } else {
                if s[2] == 'j' {
                    Keyword::RejectOn
                } else {
                    Keyword::Restrict
                }
            }
        } else if s[0] == 'S' {
            if s[1] == 'c' {
                Keyword::Scalared
            } else {
                Keyword::Sequence
            }
        } else if s[0] == 'T' {
            Keyword::Timeunit
        } else if s[0] == 'V' {
            Keyword::Vectored
        } else {
            Keyword::Wildcard
        }
    } else if s.len() == 15 {
        if s[0] == 'A' {
            Keyword::Automatic
        } else if s[0] == 'E' {
            if s[3] == 'c' {
                Keyword::Endconfig
            } else {
                Keyword::Endmodule
            }
        } else if s[0] == 'I' {
            Keyword::Intersect
        } else if s[0] == 'P' {
            if s[1] == 'a' {
                Keyword::Parameter
            } else {
                if s[2] == 'i' {
                    Keyword::Primitive
                } else {
                    Keyword::Protected
                }
            }
        } else if s[0] == 'S' {
            if s[1] == 'N' {
                Keyword::SNexttime
            } else {
                Keyword::Specparam
            }
        } else if s[0] == 'U' {
            Keyword::UntilWith
        } else {
            Keyword::WaitOrder
        }
    } else if s.len() == 16 {
        if s[0] == 'C' {
            if s[2] == 'n' {
                Keyword::Constraint
            } else {
                if s[5] == 'g' {
                    Keyword::Covergroup
                } else {
                    Keyword::Coverpoint
                }
            }
        } else if s[0] == 'E' {
            if s[1] == 'n' {
                if s[3] == 'c' {
                    Keyword::Endchecker
                } else if s[3] == 'p' {
                    if s[4] == 'a' {
                        Keyword::Endpackage
                    } else {
                        Keyword::Endprogram
                    }
                } else {
                    Keyword::Endspecify
                }
            } else {
                Keyword::Eventually
            }
        } else if s[0] == 'F' {
            Keyword::FirstMatch
        } else if s[0] == 'I' {
            if s[1] == 'g' {
                Keyword::IgnoreBins
            } else {
                Keyword::Implements
            }
        } else if s[0] == 'L' {
            Keyword::Localparam
        } else if s[0] == 'S' {
            Keyword::SUntilWith
        } else {
            Keyword::Throughout
        }
    } else if s.len() == 17 {
        if s[0] == 'E' {
            if s[3] == 'c' {
                Keyword::Endclocking
            } else if s[3] == 'f' {
                Keyword::Endfunction
            } else if s[3] == 'g' {
                Keyword::Endgenerate
            } else if s[3] == 'p' {
                Keyword::Endproperty
            } else {
                Keyword::Endsequence
            }
        } else if s[0] == 'I' {
            Keyword::IllegalBins
        } else {
            Keyword::SEventually
        }
    } else if s.len() == 18 {
        if s[0] == 'E' {
            if s[3] == 'i' {
                Keyword::Endinterface
            } else {
                Keyword::Endprimitive
            }
        } else if s[0] == 'I' {
            Keyword::Interconnect
        } else if s[0] == 'R' {
            Keyword::Randsequence
        } else {
            if s[4] == 'A' {
                Keyword::SyncAcceptOn
            } else {
                Keyword::SyncRejectOn
            }
        }
    } else if s.len() == 19 {
        if s[0] == 'S' {
            Keyword::Showcancelled
        } else {
            Keyword::Timeprecision
        }
    } else if s.len() == 21 {
        Keyword::Noshowcancelled
    } else if s.len() == 23 {
        Keyword::PulsestyleOnevent
    } else {
        Keyword::PulsestyleOndetect
    }
}

proof fn lemma_keyword_of_display(k: Keyword)
    ensures
        keyword_of_display(k.spec_display()) == k,
{
    match k {
            Keyword::Unit => {
                reveal_strlit("Unit");
                reveal_strlit(" unimp");
            },
            Keyword::Root => {
                reveal_strlit("Root");
                reveal_strlit(" unimp");
            },
            Keyword::And => {
                reveal_strlit("And");
                reveal_strlit(" unimp");
            },
            Keyword::Assign => {
                reveal_strlit("Assign");
                reveal_strlit(" unimp");
            },
            Keyword::Begin => {
                reveal_strlit("Begin");
                reveal_strlit(" unimp");
            },
            Keyword::Case => {
                reveal_strlit("Case");
                reveal_strlit(" unimp");
            },
            Keyword::Casex => {
                reveal_strlit("Casex");
                reveal_strlit(" unimp");
            },
            Keyword::Casez => {
                reveal_strlit("Casez");
                reveal_strlit(" unimp");
            },
            Keyword::Deassign => {
                reveal_strlit("Deassign");
                reveal_strlit(" unimp");
            },
            Keyword::Default => {
                reveal_strlit("Default");
                reveal_strlit(" unimp");
            },
            Keyword::Defparam => {
                reveal_strlit("Defparam");
                reveal_strlit(" unimp");
            },
            Keyword::Disable => {
                reveal_strlit("Disable");
                reveal_strlit(" unimp");
            },
            Keyword::Else => {
                reveal_strlit("Else");
                reveal_strlit(" unimp");
            },
            Keyword::End => {
                reveal_strlit("End");
                reveal_strlit(" unimp");
            },
            Keyword::Endcase => {
                reveal_strlit("Endcase");
                reveal_strlit(" unimp");
            },
            Keyword::Endmodule => {
                reveal_strlit("Endmodule");
                reveal_strlit(" unimp");
            },
            Keyword::Endfunction => {
                reveal_strlit("Endfunction");
                reveal_strlit(" unimp");
            },
            Keyword::Endprimitive => {
                reveal_strlit("Endprimitive");
                reveal_strlit(" unimp");
            },
            Keyword::Endspecify => {
                reveal_strlit("Endspecify");
                reveal_strlit(" unimp");
            },
            Keyword::Endtable => {
                reveal_strlit("Endtable");
                reveal_strlit(" unimp");
            },
            Keyword::Endtask => {
                reveal_strlit("Endtask");
                reveal_strlit(" unimp");
            },
            Keyword::Event => {
                reveal_strlit("Event");
                reveal_strlit(" unimp");
            },
            Keyword::For => {
                reveal_strlit("For");
                reveal_strlit(" unimp");
            },
            Keyword::Force => {
                reveal_strlit("Force");
                reveal_strlit(" unimp");
            },
            Keyword::Forever => {
                reveal_strlit("Forever");
                reveal_strlit(" unimp");
            },
            Keyword::Fork => {
                reveal_strlit("Fork");
                reveal_strlit(" unimp");
            },
            Keyword::Function => {
                reveal_strlit("Function");
                reveal_strlit(" unimp");
            },
            Keyword::If => {
                reveal_strlit("If");
                reveal_strlit(" unimp");
            },
            Keyword::Ifnone => {
                reveal_strlit("Ifnone");
                reveal_strlit(" unimp");
            },
            Keyword::Initial => {
                reveal_strlit("Initial");
                reveal_strlit(" unimp");
            },
            Keyword::Join => {
                reveal_strlit("Join");
                reveal_strlit(" unimp");
            },
            Keyword::Module => {
                reveal_strlit("module");
            },
            Keyword::Not => {
                reveal_strlit("Not");
                reveal_strlit(" unimp");
            },
            Keyword::Or => {
                reveal_strlit("Or");
                reveal_strlit(" unimp");
            },
            Keyword::Parameter => {
                reveal_strlit("Parameter");
                reveal_strlit(" unimp");
            },
            Keyword::Primitive => {
                reveal_strlit("Primitive");
                reveal_strlit(" unimp");
            },
            Keyword::Reg => {
                reveal_strlit("Reg");
                reveal_strlit(" unimp");
            },
            Keyword::Release => {
                reveal_strlit("Release");
                reveal_strlit(" unimp");
            },
            Keyword::Repeat => {
                reveal_strlit("Repeat");
                reveal_strlit(" unimp");
            },
            Keyword::Scalared => {
                reveal_strlit("Scalared");
                reveal_strlit(" unimp");
            },
            Keyword::Specify => {
                reveal_strlit("Specify");
                reveal_strlit(" unimp");
            },
            Keyword::Specparam => {
                reveal_strlit("Specparam");
                reveal_strlit(" unimp");
            },
            Keyword::Table => {
                reveal_strlit("Table");
                reveal_strlit(" unimp");
            },
            Keyword::Task => {
                reveal_strlit("Task");
                reveal_strlit(" unimp");
            },
            Keyword::Vectored => {
                reveal_strlit("Vectored");
                reveal_strlit(" unimp");
            },
            Keyword::Wait => {
                reveal_strlit("Wait");
                reveal_strlit(" unimp");
            },
            Keyword::While => {
                reveal_strlit("While");
                reveal_strlit(" unimp");
            },
            Keyword::Xor => {
                reveal_strlit("Xor");
                reveal_strlit(" unimp");
            },
            Keyword::Automatic => {
                reveal_strlit("Automatic");
                reveal_strlit(" unimp");
            },
            Keyword::Endgenerate => {
                reveal_strlit("Endgenerate");
                reveal_strlit(" unimp");
            },
            Keyword::Generate => {
                reveal_strlit("Generate");
                reveal_strlit(" unimp");
            },
            Keyword::Genvar => {
                reveal_strlit("Genvar");
                reveal_strlit(" unimp");
            },
            Keyword::Localparam => {
                reveal_strlit("Localparam");
                reveal_strlit(" unimp");
            },
            Keyword::Noshowcancelled => {
                reveal_strlit("Noshowcancelled");
                reveal_strlit(" unimp");
            },
            Keyword::PulsestyleOndetect => {
                reveal_strlit("PulsestyleOndetect");
                reveal_strlit(" unimp");
            },
            Keyword::PulsestyleOnevent => {
                reveal_strlit("PulsestyleOnevent");
                reveal_strlit(" unimp");
            },
            Keyword::Showcancelled => {
                reveal_strlit("Showcancelled");
                reveal_strlit(" unimp");
            },
            Keyword::Cell => {
                reveal_strlit("Cell");
                reveal_strlit(" unimp");
            },
            Keyword::Config => {
                reveal_strlit("Config");
                reveal_strlit(" unimp");
            },
            Keyword::Design => {
                reveal_strlit("Design");
                reveal_strlit(" unimp");
            },
            Keyword::Endconfig => {
                reveal_strlit("Endconfig");
                reveal_strlit(" unimp");
            },
            Keyword::Incdir => {
                reveal_strlit("Incdir");
                reveal_strlit(" unimp");
            },
            Keyword::Include => {
                reveal_strlit("Include");
                reveal_strlit(" unimp");
            },
            Keyword::Instance => {
                reveal_strlit("Instance");
                reveal_strlit(" unimp");
            },
            Keyword::Liblist => {
                reveal_strlit("Liblist");
                reveal_strlit(" unimp");
            },
            Keyword::Library => {
                reveal_strlit("Library");
                reveal_strlit(" unimp");
            },
            Keyword::Use => {
                reveal_strlit("Use");
                reveal_strlit(" unimp");
            },
            Keyword::Alias => {
                reveal_strlit("Alias");
                reveal_strlit(" unimp");
            },
            Keyword::Assert => {
                reveal_strlit("Assert");
                reveal_strlit(" unimp");
            },
            Keyword::Assume => {
                reveal_strlit("Assume");
                reveal_strlit(" unimp");
            },
            Keyword::Before => {
                reveal_strlit("Before");
                reveal_strlit(" unimp");
            },
            Keyword::Bind => {
                reveal_strlit("Bind");
                reveal_strlit(" unimp");
            },
            Keyword::Bins => {
                reveal_strlit("Bins");
                reveal_strlit(" unimp");
            },
            Keyword::Binsof => {
                reveal_strlit("Binsof");
                reveal_strlit(" unimp");
            },
            Keyword::Break => {
                reveal_strlit("Break");
                reveal_strlit(" unimp");
            },
            Keyword::Chandle => {
                reveal_strlit("Chandle");
                reveal_strlit(" unimp");
            },
            Keyword::Class => {
                reveal_strlit("Class");
                reveal_strlit(" unimp");
            },
            Keyword::Clocking => {
                reveal_strlit("Clocking");
                reveal_strlit(" unimp");
            },
            Keyword::Const => {
                reveal_strlit("Const");
                reveal_strlit(" unimp");
            },
            Keyword::Constraint => {
                reveal_strlit("Constraint");
                reveal_strlit(" unimp");
            },
            Keyword::Context => {
                reveal_strlit("Context");
                reveal_strlit(" unimp");
            },
            Keyword::Continue => {
                reveal_strlit("Continue");
                reveal_strlit(" unimp");
            },
            Keyword::Cover => {
                reveal_strlit("Cover");
                reveal_strlit(" unimp");
            },
            Keyword::Covergroup => {
                reveal_strlit("Covergroup");
                reveal_strlit(" unimp");
            },
            Keyword::Coverpoint => {
                reveal_strlit("Coverpoint");
                reveal_strlit(" unimp");
            },
            Keyword::Cross => {
                reveal_strlit("Cross");
                reveal_strlit(" unimp");
            },
            Keyword::Dist => {
                reveal_strlit("Dist");
                reveal_strlit(" unimp");
            },
            Keyword::Do => {
                reveal_strlit("Do");
                reveal_strlit(" unimp");
            },
            Keyword::Endclass => {
                reveal_strlit("Endclass");
                reveal_strlit(" unimp");
            },
            Keyword::Endclocking => {
                reveal_strlit("Endclocking");
                reveal_strlit(" unimp");
            },
            Keyword::Endgroup => {
                reveal_strlit("Endgroup");
                reveal_strlit(" unimp");
            },
            Keyword::Endinterface => {
                reveal_strlit("Endinterface");
                reveal_strlit(" unimp");
            },
            Keyword::Endpackage => {
                reveal_strlit("Endpackage");
                reveal_strlit(" unimp");
            },
            Keyword::Endprogram => {
                reveal_strlit("Endprogram");
                reveal_strlit(" unimp");
            },
            Keyword::Endproperty => {
                reveal_strlit("Endproperty");
                reveal_strlit(" unimp");
            },
            Keyword::Endsequence => {
                reveal_strlit("Endsequence");
                reveal_strlit(" unimp");
            },
            Keyword::Enum => {
                reveal_strlit("Enum");
                reveal_strlit(" unimp");
            },
            Keyword::Expect => {
                reveal_strlit("Expect");
                reveal_strlit(" unimp");
            },
            Keyword::Export => {
                reveal_strlit("Export");
                reveal_strlit(" unimp");
            },
            Keyword::Extends => {
                reveal_strlit("Extends");
                reveal_strlit(" unimp");
            },
            Keyword::Extern => {
                reveal_strlit("Extern");
                reveal_strlit(" unimp");
            },
            Keyword::Final => {
                reveal_strlit("Final");
                reveal_strlit(" unimp");
            },
            Keyword::FirstMatch => {
                reveal_strlit("FirstMatch");
                reveal_strlit(" unimp");
            },
            Keyword::Foreach => {
                reveal_strlit("Foreach");
                reveal_strlit(" unimp");
            },
            Keyword::Forkjoin => {
                reveal_strlit("Forkjoin");
                reveal_strlit(" unimp");
            },
            Keyword::Iff => {
                reveal_strlit("Iff");
                reveal_strlit(" unimp");
            },
            Keyword::IgnoreBins => {
                reveal_strlit("IgnoreBins");
                reveal_strlit(" unimp");
            },
            Keyword::IllegalBins => {
                reveal_strlit("IllegalBins");
                reveal_strlit(" unimp");
            },
            Keyword::Import => {
                reveal_strlit("Import");
                reveal_strlit(" unimp");
            },
            Keyword::Inside => {
                reveal_strlit("Inside");
                reveal_strlit(" unimp");
            },
            Keyword::Interface => {
                reveal_strlit("interface");
            },
            Keyword::Intersect => {
                reveal_strlit("Intersect");
                reveal_strlit(" unimp");
            },
            Keyword::JoinAny => {
                reveal_strlit("JoinAny");
                reveal_strlit(" unimp");
            },
            Keyword::JoinNone => {
                reveal_strlit("JoinNone");
                reveal_strlit(" unimp");
            },
            Keyword::Local => {
                reveal_strlit("Local");
                reveal_strlit(" unimp");
            },
            Keyword::Matches => {
                reveal_strlit("Matches");
                reveal_strlit(" unimp");
            },
            Keyword::Modport => {
                reveal_strlit("Modport");
                reveal_strlit(" unimp");
            },
            Keyword::New => {
                reveal_strlit("New");
                reveal_strlit(" unimp");
            },
            Keyword::Null => {
                reveal_strlit("Null");
                reveal_strlit(" unimp");
            },
            Keyword::Package => {
                reveal_strlit("Package");
                reveal_strlit(" unimp");
            },
            Keyword::Packed => {
                reveal_strlit("Packed");
                reveal_strlit(" unimp");
            },
            Keyword::Priority => {
                reveal_strlit("Priority");
                reveal_strlit(" unimp");
            },
            Keyword::Program => {
                reveal_strlit("Program");
                reveal_strlit(" unimp");
            },
            Keyword::Property => {
                reveal_strlit("Property");
                reveal_strlit(" unimp");
            },
            Keyword::Protected => {
                reveal_strlit("Protected");
                reveal_strlit(" unimp");
            },
            Keyword::Pure => {
                reveal_strlit("Pure");
                reveal_strlit(" unimp");
            },
            Keyword::Rand => {
                reveal_strlit("Rand");
                reveal_strlit(" unimp");
            },
            Keyword::Randc => {
                reveal_strlit("Randc");
                reveal_strlit(" unimp");
            },
            Keyword::Randcase => {
                reveal_strlit("Randcase");
                reveal_strlit(" unimp");
            },
            Keyword::Randsequence => {
                reveal_strlit("Randsequence");
                reveal_strlit(" unimp");
            },
            Keyword::Return => {
                reveal_strlit("Return");
                reveal_strlit(" unimp");
            },
            Keyword::Sequence => {
                reveal_strlit("Sequence");
                reveal_strlit(" unimp");
            },
            Keyword::Solve => {
                reveal_strlit("Solve");
                reveal_strlit(" unimp");
            },
            Keyword::Static => {
                reveal_strlit("Static");
                reveal_strlit(" unimp");
            },
            Keyword::String => {
                reveal_strlit("String");
                reveal_strlit(" unimp");
            },
            Keyword::Struct => {
                reveal_strlit("Struct");
                reveal_strlit(" unimp");
            },
            Keyword::Super => {
                reveal_strlit("Super");
                reveal_strlit(" unimp");
            },
            Keyword::Tagged => {
                reveal_strlit("Tagged");
                reveal_strlit(" unimp");
            },
            Keyword::This => {
                reveal_strlit("This");
                reveal_strlit(" unimp");
            },
            Keyword::Throughout => {
                reveal_strlit("Throughout");
                reveal_strlit(" unimp");
            },
            Keyword::Timeprecision => {
                reveal_strlit("Timeprecision");
                reveal_strlit(" unimp");
            },
            Keyword::Timeunit => {
                reveal_strlit("Timeunit");
                reveal_strlit(" unimp");
            },
            Keyword::Type => {
                reveal_strlit("Type");
                reveal_strlit(" unimp");
            },
            Keyword::Typedef => {
                reveal_strlit("Typedef");
                reveal_strlit(" unimp");
            },
            Keyword::Union => {
                reveal_strlit("Union");
                reveal_strlit(" unimp");
            },
            Keyword::Unique => {
                reveal_strlit("Unique");
                reveal_strlit(" unimp");
            },
            Keyword::Var => {
                reveal_strlit("Var");
                reveal_strlit(" unimp");
            },
            Keyword::Virtual => {
                reveal_strlit("Virtual");
                reveal_strlit(" unimp");
            },
            Keyword::Void => {
                reveal_strlit("Void");
                reveal_strlit(" unimp");
            },
            Keyword::WaitOrder => {
                reveal_strlit("WaitOrder");
                reveal_strlit(" unimp");
            },
            Keyword::Wildcard => {
                reveal_strlit("Wildcard");
                reveal_strlit(" unimp");
            },
            Keyword::With => {
                reveal_strlit("With");
                reveal_strlit(" unimp");
            },
            Keyword::Within => {
                reveal_strlit("Within");
                reveal_strlit(" unimp");
            },
            Keyword::AcceptOn => {
                reveal_strlit("AcceptOn");
                reveal_strlit(" unimp");
            },
            Keyword::Checker => {
                reveal_strlit("Checker");
                reveal_strlit(" unimp");
            },
            Keyword::Endchecker => {
                reveal_strlit("Endchecker");
                reveal_strlit(" unimp");
            },
            Keyword::Eventually => {
                reveal_strlit("Eventually");
                reveal_strlit(" unimp");
            },
            Keyword::Global => {
                reveal_strlit("Global");
                reveal_strlit(" unimp");
            },
            Keyword::Implies => {
                reveal_strlit("Implies");
                reveal_strlit(" unimp");
            },
            Keyword::Let => {
                reveal_strlit("Let");
                reveal_strlit(" unimp");
            },
            Keyword::Nexttime => {
                reveal_strlit("Nexttime");
                reveal_strlit(" unimp");
            },
            Keyword::RejectOn => {
                reveal_strlit("RejectOn");
                reveal_strlit(" unimp");
            },
            Keyword::Restrict => {
                reveal_strlit("Restrict");
                reveal_strlit(" unimp");
            },
            Keyword::SAlways => {
                reveal_strlit("SAlways");
                reveal_strlit(" unimp");
            },
            Keyword::SEventually => {
                reveal_strlit("SEventually");
                reveal_strlit(" unimp");
            },
            Keyword::SNexttime => {
                reveal_strlit("SNexttime");
                reveal_strlit(" unimp");
            },
            Keyword::SUntil => {
                reveal_strlit("SUntil");
                reveal_strlit(" unimp");
            },
            Keyword::SUntilWith => {
                reveal_strlit("SUntilWith");
                reveal_strlit(" unimp");
            },
            Keyword::Strong => {
                reveal_strlit("Strong");
                reveal_strlit(" unimp");
            },
            Keyword::SyncAcceptOn => {
                reveal_strlit("SyncAcceptOn");
                reveal_strlit(" unimp");
            },
            Keyword::SyncRejectOn => {
                reveal_strlit("SyncRejectOn");
                reveal_strlit(" unimp");
            },
            Keyword::Unique0 => {
                reveal_strlit("Unique0");
                reveal_strlit(" unimp");
            },
            Keyword::Until => {
                reveal_strlit("Until");
                reveal_strlit(" unimp");
            },
            Keyword::UntilWith => {
                reveal_strlit("UntilWith");
                reveal_strlit(" unimp");
            },
            Keyword::Untyped => {
                reveal_strlit("Untyped");
                reveal_strlit(" unimp");
            },
            Keyword::Weak => {
                reveal_strlit("Weak");
                reveal_strlit(" unimp");
            },
            Keyword::Implements => {
                reveal_strlit("Implements");
                reveal_strlit(" unimp");
            },
            Keyword::Interconnect => {
                reveal_strlit("Interconnect");
                reveal_strlit(" unimp");
            },
            Keyword::Nettype => {
                reveal_strlit("Nettype");
                reveal_strlit(" unimp");
            },
            Keyword::Soft => {
                reveal_strlit("Soft");
                reveal_strlit(" unimp");
            },
    }
}

/// Different keywords are shown by different texts.
pub proof fn law_display_injective(k1: Keyword, k2: Keyword)
    requires
        k1 != k2,
    ensures
        k1.spec_display() != k2.spec_display(),
{
    lemma_keyword_of_display(k1);
    lemma_keyword_of_display(k2);
}

} // verus!
