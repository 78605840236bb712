//! The read model of the syntax tree that the generator walks: a kind-tagged
//! node with typed children and a source range. Identifier names are atoms
//! resolved through an [`crate::atom::AtomTable`]; numeric literals carry
//! their serialized spelling; string literals carry their 16-bit code units.

use vstd::prelude::*;
use crate::atom::Atom;

verus! {

/// A position in the original source, 1-based in both line and column.
#[derive(Debug, Copy, Clone, PartialEq, Eq, Structural)]
pub struct SourceLoc {
    pub line: u32,
    pub col: u32,
}

/// The source extent of a node. The generator reads only `start`.
#[derive(Debug, Copy, Clone, PartialEq, Eq, Structural)]
pub struct SourceRange {
    pub start: SourceLoc,
    pub end: SourceLoc,
}

#[derive(Debug, Copy, Clone, PartialEq, Eq, Structural)]
pub enum UnaryExpressionOperator {
    Delete,
    Void,
    Typeof,
    Plus,
    Minus,
    BitNot,
    Not,
}

impl UnaryExpressionOperator {
    pub open spec fn spec_str(self) -> Seq<char> {
        match self {
            UnaryExpressionOperator::Delete => "delete"@,
            UnaryExpressionOperator::Void => "void"@,
            UnaryExpressionOperator::Typeof => "typeof"@,
            UnaryExpressionOperator::Plus => "+"@,
            UnaryExpressionOperator::Minus => "-"@,
            UnaryExpressionOperator::BitNot => "~"@,
            UnaryExpressionOperator::Not => "!"@,
        }
    }

    /// Whether the operator is spelled as a keyword, so that a space must
    /// separate it from its operand.
    pub open spec fn spec_is_keyword(self) -> bool {
        match self {
            UnaryExpressionOperator::Delete
            | UnaryExpressionOperator::Void
            | UnaryExpressionOperator::Typeof => true,
            _ => false,
        }
    }

    pub fn as_str(&self) -> (r: &'static str)
        ensures
            r@ == self.spec_str(),
    {
        match self {
            UnaryExpressionOperator::Delete => "delete",
            UnaryExpressionOperator::Void => "void",
            UnaryExpressionOperator::Typeof => "typeof",
            UnaryExpressionOperator::Plus => "+",
            UnaryExpressionOperator::Minus => "-",
            UnaryExpressionOperator::BitNot => "~",
            UnaryExpressionOperator::Not => "!",
        }
    }

    pub fn is_keyword(&self) -> (r: bool)
        ensures
            r == self.spec_is_keyword(),
    {
        matches!(
            self,
            UnaryExpressionOperator::Delete
            | UnaryExpressionOperator::Void
            | UnaryExpressionOperator::Typeof
        )
    }
}

#[derive(Debug, Copy, Clone, PartialEq, Eq, Structural)]
pub enum BinaryExpressionOperator {
    LooseEquals,
    LooseNotEquals,
    StrictEquals,
    StrictNotEquals,
    Less,
    LessEquals,
    Greater,
    GreaterEquals,
    LShift,
    RShift,
    RShift3,
    Plus,
    Minus,
    Mult,
    Div,
    Mod,
    BitOr,
    BitXor,
    BitAnd,
    Exp,
    In,
    Instanceof,
}

impl BinaryExpressionOperator {
    pub open spec fn spec_str(self) -> Seq<char> {
        match self {
            BinaryExpressionOperator::LooseEquals => "=="@,
            BinaryExpressionOperator::LooseNotEquals => "!="@,
            BinaryExpressionOperator::StrictEquals => "==="@,
            BinaryExpressionOperator::StrictNotEquals => "!=="@,
            BinaryExpressionOperator::Less => "<"@,
            BinaryExpressionOperator::LessEquals => "<="@,
            BinaryExpressionOperator::Greater => ">"@,
            BinaryExpressionOperator::GreaterEquals => ">="@,
            BinaryExpressionOperator::LShift => "<<"@,
            BinaryExpressionOperator::RShift => ">>"@,
            BinaryExpressionOperator::RShift3 => ">>>"@,
            BinaryExpressionOperator::Plus => "+"@,
            BinaryExpressionOperator::Minus => "-"@,
            BinaryExpressionOperator::Mult => "*"@,
            BinaryExpressionOperator::Div => "/"@,
            BinaryExpressionOperator::Mod => "%"@,
            BinaryExpressionOperator::BitOr => "|"@,
            BinaryExpressionOperator::BitXor => "^"@,
            BinaryExpressionOperator::BitAnd => "&"@,
            BinaryExpressionOperator::Exp => "**"@,
            BinaryExpressionOperator::In => "in"@,
            BinaryExpressionOperator::Instanceof => "instanceof"@,
        }
    }

    /// Whether the operator is spelled as a keyword, so that spaces must
    /// separate it from its operands.
    pub open spec fn spec_is_keyword(self) -> bool {
        match self {
            BinaryExpressionOperator::In | BinaryExpressionOperator::Instanceof => true,
            _ => false,
        }
    }

    pub fn as_str(&self) -> (r: &'static str)
        ensures
            r@ == self.spec_str(),
    {
        match self {
            BinaryExpressionOperator::LooseEquals => "==",
            BinaryExpressionOperator::LooseNotEquals => "!=",
            BinaryExpressionOperator::StrictEquals => "===",
            BinaryExpressionOperator::StrictNotEquals => "!==",
            BinaryExpressionOperator::Less => "<",
            BinaryExpressionOperator::LessEquals => "<=",
            BinaryExpressionOperator::Greater => ">",
            BinaryExpressionOperator::GreaterEquals => ">=",
            BinaryExpressionOperator::LShift => "<<",
            BinaryExpressionOperator::RShift => ">>",
            BinaryExpressionOperator::RShift3 => ">>>",
            BinaryExpressionOperator::Plus => "+",
            BinaryExpressionOperator::Minus => "-",
            BinaryExpressionOperator::Mult => "*",
            BinaryExpressionOperator::Div => "/",
            BinaryExpressionOperator::Mod => "%",
            BinaryExpressionOperator::BitOr => "|",
            BinaryExpressionOperator::BitXor => "^",
            BinaryExpressionOperator::BitAnd => "&",
            BinaryExpressionOperator::Exp => "**",
            BinaryExpressionOperator::In => "in",
            BinaryExpressionOperator::Instanceof => "instanceof",
        }
    }

    pub fn is_keyword(&self) -> (r: bool)
        ensures
            r == self.spec_is_keyword(),
    {
        matches!(self, BinaryExpressionOperator::In | BinaryExpressionOperator::Instanceof)
    }
}

#[derive(Debug, Copy, Clone, PartialEq, Eq, Structural)]
pub enum LogicalExpressionOperator {
    And,
    Or,
    NullishCoalesce,
}

impl LogicalExpressionOperator {
    pub open spec fn spec_str(self) -> Seq<char> {
        match self {
            LogicalExpressionOperator::And => "&&"@,
            LogicalExpressionOperator::Or => "||"@,
            LogicalExpressionOperator::NullishCoalesce => "??"@,
        }
    }

    pub fn as_str(&self) -> (r: &'static str)
        ensures
            r@ == self.spec_str(),
    {
        match self {
            LogicalExpressionOperator::And => "&&",
            LogicalExpressionOperator::Or => "||",
            LogicalExpressionOperator::NullishCoalesce => "??",
        }
    }
}

#[derive(Debug, Copy, Clone, PartialEq, Eq, Structural)]
pub enum UpdateExpressionOperator {
    Increment,
    Decrement,
}

impl UpdateExpressionOperator {
    pub open spec fn spec_str(self) -> Seq<char> {
        match self {
            UpdateExpressionOperator::Increment => "++"@,
            UpdateExpressionOperator::Decrement => "--"@,
        }
    }

    pub fn as_str(&self) -> (r: &'static str)
        ensures
            r@ == self.spec_str(),
    {
        match self {
            UpdateExpressionOperator::Increment => "++",
            UpdateExpressionOperator::Decrement => "--",
        }
    }
}

#[derive(Debug, Copy, Clone, PartialEq, Eq, Structural)]
pub enum AssignmentExpressionOperator {
    Assign,
    PlusAssign,
    MinusAssign,
    MultAssign,
    DivAssign,
    ModAssign,
    ExpAssign,
    LShiftAssign,
    RShiftAssign,
    RShift3Assign,
    BitOrAssign,
    BitXorAssign,
    BitAndAssign,
    OrAssign,
    AndAssign,
    NullishAssign,
}

impl AssignmentExpressionOperator {
    pub open spec fn spec_str(self) -> Seq<char> {
        match self {
            AssignmentExpressionOperator::Assign => "="@,
            AssignmentExpressionOperator::PlusAssign => "+="@,
            AssignmentExpressionOperator::MinusAssign => "-="@,
            AssignmentExpressionOperator::MultAssign => "*="@,
            AssignmentExpressionOperator::DivAssign => "/="@,
            AssignmentExpressionOperator::ModAssign => "%="@,
            AssignmentExpressionOperator::ExpAssign => "**="@,
            AssignmentExpressionOperator::LShiftAssign => "<<="@,
            AssignmentExpressionOperator::RShiftAssign => ">>="@,
            AssignmentExpressionOperator::RShift3Assign => ">>>="@,
            AssignmentExpressionOperator::BitOrAssign => "|="@,
            AssignmentExpressionOperator::BitXorAssign => "^="@,
            AssignmentExpressionOperator::BitAndAssign => "&="@,
            AssignmentExpressionOperator::OrAssign => "||="@,
            AssignmentExpressionOperator::AndAssign => "&&="@,
            AssignmentExpressionOperator::NullishAssign => "??="@,
        }
    }

    pub fn as_str(&self) -> (r: &'static str)
        ensures
            r@ == self.spec_str(),
    {
        match self {
            AssignmentExpressionOperator::Assign => "=",
            AssignmentExpressionOperator::PlusAssign => "+=",
            AssignmentExpressionOperator::MinusAssign => "-=",
            AssignmentExpressionOperator::MultAssign => "*=",
            AssignmentExpressionOperator::DivAssign => "/=",
            AssignmentExpressionOperator::ModAssign => "%=",
            AssignmentExpressionOperator::ExpAssign => "**=",
            AssignmentExpressionOperator::LShiftAssign => "<<=",
            AssignmentExpressionOperator::RShiftAssign => ">>=",
            AssignmentExpressionOperator::RShift3Assign => ">>>=",
            AssignmentExpressionOperator::BitOrAssign => "|=",
            AssignmentExpressionOperator::BitXorAssign => "^=",
            AssignmentExpressionOperator::BitAndAssign => "&=",
            AssignmentExpressionOperator::OrAssign => "||=",
            AssignmentExpressionOperator::AndAssign => "&&=",
            AssignmentExpressionOperator::NullishAssign => "??=",
        }
    }
}

#[derive(Debug, Copy, Clone, PartialEq, Eq, Structural)]
pub enum VariableDeclarationKind {
    Var,
    Let,
    Const,
}

impl VariableDeclarationKind {
    pub open spec fn spec_str(self) -> Seq<char> {
        match self {
            VariableDeclarationKind::Var => "var"@,
            VariableDeclarationKind::Let => "let"@,
            VariableDeclarationKind::Const => "const"@,
        }
    }

    pub fn as_str(&self) -> (r: &'static str)
        ensures
            r@ == self.spec_str(),
    {
        match self {
            VariableDeclarationKind::Var => "var",
            VariableDeclarationKind::Let => "let",
            VariableDeclarationKind::Const => "const",
        }
    }
}

#[derive(Debug, Copy, Clone, PartialEq, Eq, Structural)]
pub enum PropertyKind {
    Init,
    Get,
    Setter,
}

impl PropertyKind {
    pub open spec fn spec_str(self) -> Seq<char> {
        match self {
            PropertyKind::Init => "init"@,
            PropertyKind::Get => "get"@,
            PropertyKind::Setter => "set"@,
        }
    }

    pub fn as_str(&self) -> (r: &'static str)
        ensures
            r@ == self.spec_str(),
    {
        match self {
            PropertyKind::Init => "init",
            PropertyKind::Get => "get",
            PropertyKind::Setter => "set",
        }
    }
}

/// A node of the tree: a kind with typed children, and a source range used
/// only by the source-map segment emitter.
pub struct Node {
    pub kind: NodeKind,
    pub range: SourceRange,
}

/// The closed enumeration of node kinds the generator emits.
pub enum NodeKind {
    Empty,
    Program { body: Vec<Node> },
    FunctionExpression {
        id: Option<Box<Node>>,
        params: Vec<Node>,
        body: Box<Node>,
        return_type: Option<Box<Node>>,
        generator: bool,
        is_async: bool,
    },
    FunctionDeclaration {
        id: Option<Box<Node>>,
        params: Vec<Node>,
        body: Box<Node>,
        return_type: Option<Box<Node>>,
        generator: bool,
        is_async: bool,
    },
    ArrowFunctionExpression {
        params: Vec<Node>,
        body: Box<Node>,
        return_type: Option<Box<Node>>,
        expression: bool,
        is_async: bool,
    },
    WhileStatement { body: Box<Node>, test: Box<Node> },
    DoWhileStatement { body: Box<Node>, test: Box<Node> },
    ForInStatement { left: Box<Node>, right: Box<Node>, body: Box<Node> },
    ForOfStatement { left: Box<Node>, right: Box<Node>, body: Box<Node>, is_await: bool },
    ForStatement {
        init: Option<Box<Node>>,
        test: Option<Box<Node>>,
        update: Option<Box<Node>>,
        body: Box<Node>,
    },
    DebuggerStatement,
    EmptyStatement,
    BlockStatement { body: Vec<Node> },
    BreakStatement { label: Option<Box<Node>> },
    ContinueStatement { label: Option<Box<Node>> },
    ThrowStatement { argument: Box<Node> },
    ReturnStatement { argument: Option<Box<Node>> },
    WithStatement { object: Box<Node>, body: Box<Node> },
    SwitchStatement { discriminant: Box<Node>, cases: Vec<Node> },
    SwitchCase { test: Option<Box<Node>>, consequent: Vec<Node> },
    LabeledStatement { label: Box<Node>, body: Box<Node> },
    ExpressionStatement { expression: Box<Node> },
    TryStatement {
        block: Box<Node>,
        handler: Option<Box<Node>>,
        finalizer: Option<Box<Node>>,
    },
    IfStatement {
        test: Box<Node>,
        consequent: Box<Node>,
        alternate: Option<Box<Node>>,
    },
    CatchClause { param: Option<Box<Node>>, body: Box<Node> },
    VariableDeclaration { kind: VariableDeclarationKind, declarations: Vec<Node> },
    VariableDeclarator { init: Option<Box<Node>>, id: Box<Node> },
    BooleanLiteral { value: bool },
    NullLiteral,
    StringLiteral { value: Vec<u16> },
    NumericLiteral { text: String },
    RegExpLiteral { pattern: String, flags: String },
    ThisExpression,
    Super,
    SequenceExpression { expressions: Vec<Node> },
    ObjectExpression { properties: Vec<Node> },
    ArrayExpression { elements: Vec<Node>, trailing_comma: bool },
    SpreadElement { argument: Box<Node> },
    NewExpression { callee: Box<Node>, arguments: Vec<Node> },
    YieldExpression { argument: Option<Box<Node>>, delegate: bool },
    AwaitExpression { argument: Box<Node> },
    CallExpression { callee: Box<Node>, arguments: Vec<Node> },
    OptionalCallExpression { callee: Box<Node>, arguments: Vec<Node>, optional: bool },
    AssignmentExpression {
        operator: AssignmentExpressionOperator,
        left: Box<Node>,
        right: Box<Node>,
    },
    UnaryExpression { operator: UnaryExpressionOperator, argument: Box<Node>, prefix: bool },
    UpdateExpression { operator: UpdateExpressionOperator, argument: Box<Node>, prefix: bool },
    MemberExpression { object: Box<Node>, property: Box<Node>, computed: bool },
    OptionalMemberExpression {
        object: Box<Node>,
        property: Box<Node>,
        computed: bool,
        optional: bool,
    },
    BinaryExpression { left: Box<Node>, right: Box<Node>, operator: BinaryExpressionOperator },
    LogicalExpression { left: Box<Node>, right: Box<Node>, operator: LogicalExpressionOperator },
    ConditionalExpression {
        test: Box<Node>,
        consequent: Box<Node>,
        alternate: Box<Node>,
    },
    Identifier { name: Atom, type_annotation: Option<Box<Node>>, optional: bool },
    TemplateLiteral { quasis: Vec<Node>, expressions: Vec<Node> },
    TemplateElement { raw: String },
    TaggedTemplateExpression { tag: Box<Node>, quasi: Box<Node> },
    Property {
        key: Box<Node>,
        value: Box<Node>,
        kind: PropertyKind,
        computed: bool,
        method: bool,
        shorthand: bool,
    },
    ObjectPattern { properties: Vec<Node>, type_annotation: Option<Box<Node>> },
    TypeAnnotation { type_annotation: Box<Node> },
    NumberTypeAnnotation,
    StringTypeAnnotation,
    BooleanTypeAnnotation,
    AnyTypeAnnotation,
    VoidTypeAnnotation,
    UnionTypeAnnotation { types: Vec<Node> },
    IntersectionTypeAnnotation { types: Vec<Node> },
}

impl NodeKind {
    pub open spec fn spec_is_if_without_else(&self) -> bool {
        match self {
            NodeKind::IfStatement { alternate, .. } => alternate is None,
            _ => false,
        }
    }

    pub fn is_if_without_else(&self) -> (r: bool)
        ensures
            r == self.spec_is_if_without_else(),
    {
        match self {
            NodeKind::IfStatement { alternate, .. } => alternate.is_none(),
            _ => false,
        }
    }

    /// The child starts with `+` or a prefix `++`.
    pub open spec fn spec_check_plus(&self) -> bool {
        ||| self matches NodeKind::UnaryExpression { operator: UnaryExpressionOperator::Plus, .. }
        ||| self matches NodeKind::UpdateExpression {
            operator: UpdateExpressionOperator::Increment, prefix: true, .. }
    }

    /// The child starts with `-` or a prefix `--`.
    pub open spec fn spec_check_minus(&self) -> bool {
        ||| self matches NodeKind::UnaryExpression { operator: UnaryExpressionOperator::Minus, .. }
        ||| self matches NodeKind::UpdateExpression {
            operator: UpdateExpressionOperator::Decrement, prefix: true, .. }
    }

    pub fn check_plus(&self) -> (r: bool)
        ensures
            r == self.spec_check_plus(),
    {
        match self {
            NodeKind::UnaryExpression { operator: UnaryExpressionOperator::Plus, .. } => true,
            NodeKind::UpdateExpression {
                operator: UpdateExpressionOperator::Increment, prefix, .. } => *prefix,
            _ => false,
        }
    }

    pub fn check_minus(&self) -> (r: bool)
        ensures
            r == self.spec_check_minus(),
    {
        match self {
            NodeKind::UnaryExpression { operator: UnaryExpressionOperator::Minus, .. } => true,
            NodeKind::UpdateExpression {
                operator: UpdateExpressionOperator::Decrement, prefix, .. } => *prefix,
            _ => false,
        }
    }

    /// A logical expression over `&&` or `||`.
    pub open spec fn spec_check_and_or(&self) -> bool {
        ||| self matches NodeKind::LogicalExpression { operator: LogicalExpressionOperator::And, .. }
        ||| self matches NodeKind::LogicalExpression { operator: LogicalExpressionOperator::Or, .. }
    }

    /// A logical expression over `??`.
    pub open spec fn spec_check_nullish(&self) -> bool {
        self matches NodeKind::LogicalExpression {
            operator: LogicalExpressionOperator::NullishCoalesce, .. }
    }

    pub fn check_and_or(&self) -> (r: bool)
        ensures
            r == self.spec_check_and_or(),
    {
        matches!(
            self,
            NodeKind::LogicalExpression {
                operator: LogicalExpressionOperator::And | LogicalExpressionOperator::Or, .. }
        )
    }

    pub fn check_nullish(&self) -> (r: bool)
        ensures
            r == self.spec_check_nullish(),
    {
        matches!(
            self,
            NodeKind::LogicalExpression {
                operator: LogicalExpressionOperator::NullishCoalesce, .. }
        )
    }
}

/// The range start is a valid 1-based position, so that the source-map
/// emitter can convert it to 0-based coordinates.
pub open spec fn wf_range(r: SourceRange) -> bool {
    r.start.line >= 1 && r.start.col >= 1
}

/// Well-formedness of a node with respect to a table of `natoms` interned
/// atoms: every atom is in range, every structural invariant the emitter
/// relies on holds, and a template element appears only inside the quasis of
/// a template literal.
pub open spec fn wf_node(n: Node, natoms: nat) -> bool
    decreases n,
{
    wf_range(n.range) && match n.kind {
        NodeKind::Empty => true,
        NodeKind::Program { body } => wf_list(body@, natoms),
        NodeKind::FunctionExpression { id, params, body, return_type, .. } =>
            (match id { Option::Some(b) => wf_node(*b, natoms), Option::None => true }) && wf_list(params@, natoms) && wf_node(*body, natoms)
                && (match return_type { Option::Some(b) => wf_node(*b, natoms), Option::None => true }),
        NodeKind::FunctionDeclaration { id, params, body, return_type, .. } =>
            (match id { Option::Some(b) => wf_node(*b, natoms), Option::None => true }) && wf_list(params@, natoms) && wf_node(*body, natoms)
                && (match return_type { Option::Some(b) => wf_node(*b, natoms), Option::None => true }),
        NodeKind::ArrowFunctionExpression { params, body, return_type, .. } =>
            wf_list(params@, natoms) && wf_node(*body, natoms) && (match return_type { Option::Some(b) => wf_node(*b, natoms), Option::None => true }),
        NodeKind::WhileStatement { body, test } =>
            wf_node(*body, natoms) && wf_node(*test, natoms),
        NodeKind::DoWhileStatement { body, test } =>
            wf_node(*body, natoms) && wf_node(*test, natoms),
        NodeKind::ForInStatement { left, right, body } =>
            wf_node(*left, natoms) && wf_node(*right, natoms) && wf_node(*body, natoms),
        NodeKind::ForOfStatement { left, right, body, .. } =>
            wf_node(*left, natoms) && wf_node(*right, natoms) && wf_node(*body, natoms),
        NodeKind::ForStatement { init, test, update, body } =>
            (match init { Option::Some(b) => wf_node(*b, natoms), Option::None => true }) && (match test { Option::Some(b) => wf_node(*b, natoms), Option::None => true }) && (match update { Option::Some(b) => wf_node(*b, natoms), Option::None => true })
                && wf_node(*body, natoms),
        NodeKind::DebuggerStatement => true,
        NodeKind::EmptyStatement => true,
        NodeKind::BlockStatement { body } => wf_list(body@, natoms),
        NodeKind::BreakStatement { label } => (match label { Option::Some(b) => wf_node(*b, natoms), Option::None => true }),
        NodeKind::ContinueStatement { label } => (match label { Option::Some(b) => wf_node(*b, natoms), Option::None => true }),
        NodeKind::ThrowStatement { argument } => wf_node(*argument, natoms),
        NodeKind::ReturnStatement { argument } => (match argument { Option::Some(b) => wf_node(*b, natoms), Option::None => true }),
        NodeKind::WithStatement { object, body } =>
            wf_node(*object, natoms) && wf_node(*body, natoms),
        NodeKind::SwitchStatement { discriminant, cases } =>
            wf_node(*discriminant, natoms) && wf_list(cases@, natoms),
        NodeKind::SwitchCase { test, consequent } =>
            (match test { Option::Some(b) => wf_node(*b, natoms), Option::None => true }) && wf_list(consequent@, natoms),
        NodeKind::LabeledStatement { label, body } =>
            wf_node(*label, natoms) && wf_node(*body, natoms),
        NodeKind::ExpressionStatement { expression } => wf_node(*expression, natoms),
        NodeKind::TryStatement { block, handler, finalizer } =>
            wf_node(*block, natoms) && (match handler { Option::Some(b) => wf_node(*b, natoms), Option::None => true }) && (match finalizer { Option::Some(b) => wf_node(*b, natoms), Option::None => true }),
        NodeKind::IfStatement { test, consequent, alternate } =>
            wf_node(*test, natoms) && wf_node(*consequent, natoms) && (match alternate { Option::Some(b) => wf_node(*b, natoms), Option::None => true }),
        NodeKind::CatchClause { param, body } =>
            (match param { Option::Some(b) => wf_node(*b, natoms), Option::None => true }) && wf_node(*body, natoms),
        NodeKind::VariableDeclaration { declarations, .. } => wf_list(declarations@, natoms),
        NodeKind::VariableDeclarator { init, id } =>
            (match init { Option::Some(b) => wf_node(*b, natoms), Option::None => true }) && wf_node(*id, natoms),
        NodeKind::BooleanLiteral { .. } => true,
        NodeKind::NullLiteral => true,
        NodeKind::StringLiteral { .. } => true,
        NodeKind::NumericLiteral { .. } => true,
        NodeKind::RegExpLiteral { .. } => true,
        NodeKind::ThisExpression => true,
        NodeKind::Super => true,
        NodeKind::SequenceExpression { expressions } => wf_list(expressions@, natoms),
        NodeKind::ObjectExpression { properties } => wf_list(properties@, natoms),
        NodeKind::ArrayExpression { elements, .. } => wf_list(elements@, natoms),
        NodeKind::SpreadElement { argument } => wf_node(*argument, natoms),
        NodeKind::NewExpression { callee, arguments } =>
            wf_node(*callee, natoms) && wf_list(arguments@, natoms),
        NodeKind::YieldExpression { argument, .. } => (match argument { Option::Some(b) => wf_node(*b, natoms), Option::None => true }),
        NodeKind::AwaitExpression { argument } => wf_node(*argument, natoms),
        NodeKind::CallExpression { callee, arguments } =>
            wf_node(*callee, natoms) && wf_list(arguments@, natoms),
        NodeKind::OptionalCallExpression { callee, arguments, .. } =>
            wf_node(*callee, natoms) && wf_list(arguments@, natoms),
        NodeKind::AssignmentExpression { left, right, .. } =>
            wf_node(*left, natoms) && wf_node(*right, natoms),
        NodeKind::UnaryExpression { argument, .. } => wf_node(*argument, natoms),
        NodeKind::UpdateExpression { argument, .. } => wf_node(*argument, natoms),
        NodeKind::MemberExpression { object, property, .. } =>
            wf_node(*object, natoms) && wf_node(*property, natoms),
        NodeKind::OptionalMemberExpression { object, property, .. } =>
            wf_node(*object, natoms) && wf_node(*property, natoms),
        NodeKind::BinaryExpression { left, right, .. } =>
            wf_node(*left, natoms) && wf_node(*right, natoms),
        NodeKind::LogicalExpression { left, right, .. } =>
            wf_node(*left, natoms) && wf_node(*right, natoms),
        NodeKind::ConditionalExpression { test, consequent, alternate } =>
            wf_node(*test, natoms) && wf_node(*consequent, natoms) && wf_node(*alternate, natoms),
        NodeKind::Identifier { name, type_annotation, .. } =>
            name@ < natoms && (match type_annotation { Option::Some(b) => wf_node(*b, natoms), Option::None => true }),
        NodeKind::TemplateLiteral { quasis, expressions } => {
            &&& quasis@.len() == expressions@.len() + 1
            &&& forall|i: int| 0 <= i < quasis@.len()
                ==> ((#[trigger] quasis@[i].kind) matches NodeKind::TemplateElement { .. })
            &&& forall|i: int| 0 <= i < quasis@.len() ==> wf_range(#[trigger] quasis@[i].range)
            &&& wf_list(expressions@, natoms)
        },
        NodeKind::TemplateElement { .. } => false,
        NodeKind::TaggedTemplateExpression { tag, quasi } =>
            wf_node(*tag, natoms) && wf_node(*quasi, natoms),
        NodeKind::Property { key, value, kind, method, .. } => {
            &&& wf_node(*key, natoms)
            &&& wf_node(*value, natoms)
            &&& (!(kind matches PropertyKind::Init) || method)
                ==> value.kind matches NodeKind::FunctionExpression { .. }
        },
        NodeKind::ObjectPattern { properties, type_annotation } =>
            wf_list(properties@, natoms) && (match type_annotation { Option::Some(b) => wf_node(*b, natoms), Option::None => true }),
        NodeKind::TypeAnnotation { type_annotation } => wf_node(*type_annotation, natoms),
        NodeKind::NumberTypeAnnotation => true,
        NodeKind::StringTypeAnnotation => true,
        NodeKind::BooleanTypeAnnotation => true,
        NodeKind::AnyTypeAnnotation => true,
        NodeKind::VoidTypeAnnotation => true,
        NodeKind::UnionTypeAnnotation { types } => wf_list(types@, natoms),
        NodeKind::IntersectionTypeAnnotation { types } => wf_list(types@, natoms),
    }
}

pub open spec fn wf_list(l: Seq<Node>, natoms: nat) -> bool
    decreases l,
{
    forall|i: int| 0 <= i < l.len() ==> wf_node(#[trigger] l[i], natoms)
}

} // verus!
