//! What a syntax tree holds of its function items: their attributes, their
//! inputs and the shapes of their declared types.
//!
//! Each type has a view, which stands for it in contracts: the same value
//! with every text as a sequence of characters and every list as a sequence.

use vstd::prelude::*;

verus! {

/// A declared type, as far as resolution looks into it.
#[derive(Debug, PartialEq, Eq)]
pub enum TypeExpression {
    /// A named type without generic arguments.
    Leaf { name: String },
    /// A named type applied to generic arguments, in their order.
    Generic { name: String, args: Vec<TypeArgument> },
    /// A borrowed value.
    Reference { referent: Box<TypeExpression> },
    /// Any other shape: a tuple, a function type, a slice and the like.
    Other,
}

/// One generic argument of a type.
#[derive(Debug, PartialEq, Eq)]
pub struct TypeArgument {
    /// The argument as the source writes it.
    pub source: String,
    /// Its shape. An argument that is no type, such as a lifetime, has the
    /// shape `Other`.
    pub expr: TypeExpression,
}

/// What a `TypeExpression` stands for in contracts.
pub ghost enum TypeExpressionView {
    Leaf { name: Seq<char> },
    Generic { name: Seq<char>, args: Seq<TypeArgumentView> },
    Reference { referent: Box<TypeExpressionView> },
    Other,
}

/// What a `TypeArgument` stands for in contracts.
pub ghost struct TypeArgumentView {
    pub source: Seq<char>,
    pub expr: TypeExpressionView,
}

impl TypeExpression {
    /// The shape of `self`, with every text as a sequence of characters.
    pub open spec fn model(&self) -> TypeExpressionView
        decreases self,
    {
        match self {
            TypeExpression::Leaf { name } => TypeExpressionView::Leaf { name: name@ },
            TypeExpression::Generic { name, args } => TypeExpressionView::Generic {
                name: name@,
                args: Seq::new(
                    args@.len(),
                    |i: int|
                        if 0 <= i < args@.len() {
                            TypeArgumentView {
                                source: args@[i].source@,
                                expr: args@[i].expr.model(),
                            }
                        } else {
                            arbitrary()
                        },
                ),
            },
            TypeExpression::Reference { referent } => TypeExpressionView::Reference {
                referent: Box::new((**referent).model()),
            },
            TypeExpression::Other => TypeExpressionView::Other,
        }
    }
}

impl View for TypeExpression {
    type V = TypeExpressionView;

    open spec fn view(&self) -> TypeExpressionView {
        self.model()
    }
}

impl View for TypeArgument {
    type V = TypeArgumentView;

    open spec fn view(&self) -> TypeArgumentView {
        TypeArgumentView { source: self.source@, expr: self.expr@ }
    }
}

impl Clone for TypeExpression {
    fn clone(&self) -> (copy: Self)
        ensures
            copy@ == self@,
        decreases self,
    {
        match self {
            TypeExpression::Leaf { name } => TypeExpression::Leaf { name: name.clone() },
            TypeExpression::Generic { name, args } => {
                let mut copies: Vec<TypeArgument> = Vec::new();
                let mut i: usize = 0;
                while i < args.len()
                    invariant
                        i <= args@.len(),
                        copies@.len() == i,
                        decreases_to!(self => args),
                        forall|j: int| 0 <= j < i ==> (#[trigger] copies@[j])@ == args@[j]@,
                    decreases args@.len() - i,
                {
                    let arg = &args[i];
                    proof {
                        vstd::std_specs::vec::axiom_vec_index_decreases(*args, i as int);
                    }
                    let copy = TypeArgument { source: arg.source.clone(), expr: arg.expr.clone() };
                    copies.push(copy);
                    i += 1;
                }
                let copy = TypeExpression::Generic { name: name.clone(), args: copies };
                assert(copy@->Generic_args =~= self@->Generic_args);
                copy
            },
            TypeExpression::Reference { referent } => TypeExpression::Reference {
                referent: Box::new((**referent).clone()),
            },
            TypeExpression::Other => TypeExpression::Other,
        }
    }
}

impl DeepView for TypeExpression {
    type V = TypeExpressionView;

    open spec fn deep_view(&self) -> TypeExpressionView {
        self.model()
    }
}

impl DeepView for TypeArgument {
    type V = TypeArgumentView;

    open spec fn deep_view(&self) -> TypeArgumentView {
        self@
    }
}

impl Clone for TypeArgument {
    fn clone(&self) -> (copy: Self)
        ensures
            copy@ == self@,
    {
        TypeArgument { source: self.source.clone(), expr: self.expr.clone() }
    }
}

impl TypeExpressionView {
    /// The name of a named type, with or without generic arguments.
    pub open spec fn leaf_name(self) -> Option<Seq<char>> {
        match self {
            TypeExpressionView::Leaf { name } => Some(name),
            TypeExpressionView::Generic { name, .. } => Some(name),
            _ => None,
        }
    }

    /// The generic arguments: none but for a `Generic`.
    pub open spec fn arguments(self) -> Seq<TypeArgumentView> {
        match self {
            TypeExpressionView::Generic { args, .. } => args,
            _ => Seq::empty(),
        }
    }
}

impl TypeExpression {
    /// The name of a named type, with or without generic arguments.
    pub fn leaf_name(&self) -> (name: Option<String>)
        ensures
            name.deep_view() == self@.leaf_name(),
    {
        match self {
            TypeExpression::Leaf { name } => Some(name.clone()),
            TypeExpression::Generic { name, .. } => Some(name.clone()),
            _ => None,
        }
    }

    /// The name and the arguments of a generic type.
    pub fn as_generic(&self) -> (parts: Option<(&String, &Vec<TypeArgument>)>)
        ensures
            parts is Some <==> self@ is Generic,
            parts matches Some((name, args)) ==> self@ == (TypeExpressionView::Generic {
                name: name@,
                args: args.deep_view(),
            }),
    {
        match self {
            TypeExpression::Generic { name, args } => {
                assert(self@->Generic_args =~= args.deep_view());
                Some((name, args))
            },
            _ => None,
        }
    }
}

/// A declared parameter of a function.
#[derive(Debug, PartialEq, Eq)]
pub struct Parameter {
    /// The identifier that binds it; `None` where any other pattern does.
    pub name: Option<String>,
    /// Its declared type.
    pub ty: TypeExpression,
}

/// What a `Parameter` stands for in contracts.
pub ghost struct ParameterView {
    pub name: Option<Seq<char>>,
    pub ty: TypeExpressionView,
}

impl View for Parameter {
    type V = ParameterView;

    open spec fn view(&self) -> ParameterView {
        ParameterView { name: self.name.deep_view(), ty: self.ty@ }
    }
}

impl DeepView for Parameter {
    type V = ParameterView;

    open spec fn deep_view(&self) -> ParameterView {
        self@
    }
}

impl Clone for Parameter {
    fn clone(&self) -> (copy: Self)
        ensures
            copy@ == self@,
    {
        let name = match &self.name {
            Some(name) => Some(name.clone()),
            None => None,
        };
        Parameter { name, ty: self.ty.clone() }
    }
}

/// One input of a function, as its signature declares it.
#[derive(Debug, PartialEq, Eq)]
pub enum FunctionInput {
    /// The receiver of a method, in any of its forms.
    Receiver,
    /// A parameter with a declared type.
    Typed(Parameter),
}

/// What a `FunctionInput` stands for in contracts.
pub ghost enum FunctionInputView {
    Receiver,
    Typed(ParameterView),
}

impl View for FunctionInput {
    type V = FunctionInputView;

    open spec fn view(&self) -> FunctionInputView {
        match self {
            FunctionInput::Receiver => FunctionInputView::Receiver,
            FunctionInput::Typed(parameter) => FunctionInputView::Typed(parameter@),
        }
    }
}

impl DeepView for FunctionInput {
    type V = FunctionInputView;

    open spec fn deep_view(&self) -> FunctionInputView {
        self@
    }
}

/// An attribute on a function: `#[path tokens]`.
#[derive(Debug, PartialEq, Eq)]
pub struct Attribute {
    /// The segments of its path, in their order.
    pub path: Vec<String>,
    /// The text of what follows the path, delimiters included.
    pub tokens: String,
}

/// What an `Attribute` stands for in contracts.
pub ghost struct AttributeView {
    pub path: Seq<Seq<char>>,
    pub tokens: Seq<char>,
}

impl View for Attribute {
    type V = AttributeView;

    open spec fn view(&self) -> AttributeView {
        AttributeView { path: self.path.deep_view(), tokens: self.tokens@ }
    }
}

impl DeepView for Attribute {
    type V = AttributeView;

    open spec fn deep_view(&self) -> AttributeView {
        self@
    }
}

/// A function item of a syntax tree, with the function items nested in it.
///
/// A syntax tree counts here as the list of its outermost function items:
/// whatever else stands around a function item, a module for one, is left
/// out, and the function item takes its place.
#[derive(Debug, PartialEq, Eq)]
pub struct FunctionItem {
    /// The function's name.
    pub name: String,
    /// Its attributes, in their order.
    pub attrs: Vec<Attribute>,
    /// Its inputs, in the order of their declaration.
    pub inputs: Vec<FunctionInput>,
    /// Its declared return type, where it declares one.
    pub output: Option<TypeExpression>,
    /// The function items that stand within it and within no other
    /// function item in between, in the order of the source.
    pub items: Vec<FunctionItem>,
}

/// What a `FunctionItem` stands for in contracts.
pub ghost struct FunctionItemView {
    pub name: Seq<char>,
    pub attrs: Seq<AttributeView>,
    pub inputs: Seq<FunctionInputView>,
    pub output: Option<TypeExpressionView>,
    pub items: Seq<FunctionItemView>,
}

impl FunctionItem {
    /// The item and all that is nested in it, with every text as a
    /// sequence of characters.
    pub open spec fn model(&self) -> FunctionItemView
        decreases self,
    {
        FunctionItemView {
            name: self.name@,
            attrs: self.attrs.deep_view(),
            inputs: self.inputs.deep_view(),
            output: self.output.deep_view(),
            items: Seq::new(
                self.items@.len(),
                |i: int|
                    if 0 <= i < self.items@.len() {
                        self.items@[i].model()
                    } else {
                        arbitrary()
                    },
            ),
        }
    }
}

impl View for FunctionItem {
    type V = FunctionItemView;

    open spec fn view(&self) -> FunctionItemView {
        self.model()
    }
}

impl DeepView for FunctionItem {
    type V = FunctionItemView;

    open spec fn deep_view(&self) -> FunctionItemView {
        self.model()
    }
}

} // verus!
