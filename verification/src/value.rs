//! Values, as far as imports tell them apart.

use std::sync::Arc;
use vstd::prelude::*;
use crate::scope::Scope;
use crate::span::Span;

verus! {

/// The kinds of values.
#[derive(Debug, Clone, Copy, PartialEq, Eq, Structural, Hash)]
pub enum Kind {
    /// The empty value.
    Empty,
    /// A boolean.
    Bool,
    /// A whole number.
    Int,
    /// A text.
    Str,
    /// Rendered content.
    Content,
    /// A list of values.
    Array,
    /// A callable.
    Func,
    /// An evaluated module.
    Module,
    /// A type descriptor.
    Type,
    /// Any other kind.
    Other,
}

impl Kind {
    /// The name of the kind as diagnostics show it.
    pub open spec fn spec_name(self) -> Seq<char> {
        match self {
            Kind::Empty => "none"@,
            Kind::Bool => "boolean"@,
            Kind::Int => "integer"@,
            Kind::Str => "string"@,
            Kind::Content => "content"@,
            Kind::Array => "array"@,
            Kind::Func => "function"@,
            Kind::Module => "module"@,
            Kind::Type => "type"@,
            Kind::Other => "value"@,
        }
    }

    /// The name of the kind as diagnostics show it.
    pub fn name(&self) -> (name: &'static str)
        ensures
            name@ == self.spec_name(),
    {
        match self {
            Kind::Empty => "none",
            Kind::Bool => "boolean",
            Kind::Int => "integer",
            Kind::Str => "string",
            Kind::Content => "content",
            Kind::Array => "array",
            Kind::Func => "function",
            Kind::Module => "module",
            Kind::Type => "type",
            Kind::Other => "value",
        }
    }
}

/// The rendered body of a document or module.
#[derive(Debug, PartialEq, Eq)]
pub struct Content {
    /// The body as text.
    pub text: String,
}

impl Clone for Content {
    fn clone(&self) -> (copy: Self)
        ensures
            copy == *self,
    {
        Content { text: self.text.clone() }
    }
}

impl Content {
    /// The empty body.
    pub fn empty() -> (content: Self)
        ensures
            content.text@ == Seq::<char>::empty(),
    {
        Content { text: String::new() }
    }

    /// A body with the given text.
    pub fn new(text: &str) -> (content: Self)
        ensures
            content.text@ == text@,
    {
        Content { text: text.to_string() }
    }
}

/// A callable. Built-in callables carry a scope of their own definitions;
/// callables that a document defines carry none.
#[derive(Debug, PartialEq)]
pub struct Func {
    /// The name of the callable.
    pub name: String,
    /// The definitions that belong to the callable, if it has any.
    pub scope: Option<Arc<Scope>>,
}

impl Clone for Func {
    fn clone(&self) -> (copy: Self)
        ensures
            copy == *self,
    {
        Func {
            name: self.name.clone(),
            scope: match &self.scope {
                Some(scope) => Some(scope.clone()),
                None => None,
            },
        }
    }
}

impl Func {
    /// A callable with the scope of its definitions.
    pub fn native(name: &str, scope: Scope) -> (func: Self)
        ensures
            func.name@ == name@,
            func.scope == Some(Arc::new(scope)),
    {
        Func { name: name.to_string(), scope: Some(Arc::new(scope)) }
    }

    /// A callable that a document defined: it has no scope.
    pub fn closure(name: &str) -> (func: Self)
        ensures
            func.name@ == name@,
            func.scope is None,
    {
        Func { name: name.to_string(), scope: None }
    }

    /// The definitions that belong to the callable, if it has any.
    pub fn scope(&self) -> (scope: Option<&Scope>)
        ensures
            scope is Some <==> self.scope is Some,
            scope matches Some(s) ==> *s == *self.scope->0,
    {
        match &self.scope {
            Some(scope) => Some(&**scope),
            None => None,
        }
    }
}

/// A type descriptor with the scope of the type's definitions.
#[derive(Debug, PartialEq)]
pub struct Type {
    /// The name of the type.
    pub name: String,
    /// The definitions that belong to the type.
    pub scope: Arc<Scope>,
}

impl Clone for Type {
    fn clone(&self) -> (copy: Self)
        ensures
            copy == *self,
    {
        Type { name: self.name.clone(), scope: self.scope.clone() }
    }
}

impl Type {
    /// A type descriptor.
    pub fn new(name: &str, scope: Scope) -> (ty: Self)
        ensures
            ty.name@ == name@,
            *ty.scope == scope,
    {
        Type { name: name.to_string(), scope: Arc::new(scope) }
    }

    /// The definitions that belong to the type.
    pub fn scope(&self) -> (scope: &Scope)
        ensures
            *scope == *self.scope,
    {
        &*self.scope
    }
}

/// What evaluating a file leaves behind.
#[derive(Debug, PartialEq)]
pub struct ModuleRepr {
    /// The top-level bindings of the file.
    pub scope: Scope,
    /// The rendered body of the file.
    pub content: Content,
}

/// An evaluated module: a scope and a rendered body, under an optional
/// display name. Copies share the scope and the body.
#[derive(Debug, PartialEq)]
pub struct Module {
    /// The display name.
    pub name: Option<String>,
    /// The scope and the body.
    pub inner: Arc<ModuleRepr>,
}

impl Clone for Module {
    fn clone(&self) -> (copy: Self)
        ensures
            copy == *self,
    {
        Module {
            name: match &self.name {
                Some(name) => Some(name.clone()),
                None => None,
            },
            inner: self.inner.clone(),
        }
    }
}

impl Module {
    /// A module with a name, a scope and an empty body.
    pub fn new(name: &str, scope: Scope) -> (module: Self)
        ensures
            module.name matches Some(n) && n@ == name@,
            module.inner.scope == scope,
            module.inner.content.text@ == Seq::<char>::empty(),
    {
        Module {
            name: Some(name.to_string()),
            inner: Arc::new(ModuleRepr { scope, content: Content::empty() }),
        }
    }

    /// A module without a name.
    pub fn anonymous(scope: Scope, content: Content) -> (module: Self)
        ensures
            module.name is None,
            module.inner.scope == scope,
            module.inner.content == content,
    {
        Module { name: None, inner: Arc::new(ModuleRepr { scope, content }) }
    }

    /// The same module under another display name. The module is taken and
    /// handed back: no module that shares its scope sees the new name.
    pub fn with_name(self, name: &str) -> (module: Self)
        ensures
            module.name matches Some(n) && n@ == name@,
            module.inner == self.inner,
    {
        Module { name: Some(name.to_string()), inner: self.inner }
    }

    /// The top-level bindings.
    pub fn scope(&self) -> (scope: &Scope)
        ensures
            *scope == self.inner.scope,
    {
        &self.inner.scope
    }

    /// The rendered body.
    pub fn content(&self) -> (content: Content)
        ensures
            content == self.inner.content,
    {
        self.inner.content.clone()
    }
}

/// A value of a kind that an import never looks into. The host keeps the
/// value itself and hands out a number by which it finds the value again.
#[derive(Debug, PartialEq)]
pub struct Dynamic {
    /// The name of the type of the value.
    pub ty: String,
    /// The number under which the host keeps the value.
    pub handle: u64,
}

impl Clone for Dynamic {
    fn clone(&self) -> (copy: Self)
        ensures
            copy == *self,
    {
        Dynamic { ty: self.ty.clone(), handle: self.handle }
    }
}

/// A value of the language.
#[derive(Debug, PartialEq)]
pub enum Value {
    /// The empty value.
    Empty,
    /// A boolean.
    Bool(bool),
    /// A whole number.
    Int(i64),
    /// A text.
    Str(String),
    /// Rendered content.
    Content(Content),
    /// A list of values.
    Array(Arc<Vec<Value>>),
    /// A callable.
    Func(Func),
    /// An evaluated module.
    Module(Module),
    /// A type descriptor.
    Type(Type),
    /// A value of any other kind.
    Dyn(Dynamic),
}

impl Clone for Value {
    fn clone(&self) -> (copy: Self)
        ensures
            copy == *self,
    {
        match self {
            Value::Empty => Value::Empty,
            Value::Bool(b) => Value::Bool(*b),
            Value::Int(i) => Value::Int(*i),
            Value::Str(s) => Value::Str(s.clone()),
            Value::Content(c) => Value::Content(c.clone()),
            Value::Array(a) => Value::Array(a.clone()),
            Value::Func(f) => Value::Func(f.clone()),
            Value::Module(m) => Value::Module(m.clone()),
            Value::Type(t) => Value::Type(t.clone()),
            Value::Dyn(d) => Value::Dyn(d.clone()),
        }
    }
}

/// The scope that a value exposes: that of a module, of a type descriptor or
/// of a callable that carries one. No other value exposes a scope.
pub open spec fn scope_of(value: Value) -> Option<Scope> {
    match value {
        Value::Func(func) => match func.scope {
            Some(scope) => Some(*scope),
            None => None,
        },
        Value::Type(ty) => Some(*ty.scope),
        Value::Module(module) => Some(module.inner.scope),
        _ => None,
    }
}

impl Value {
    /// The kind of the value.
    pub open spec fn spec_kind(self) -> Kind {
        match self {
            Value::Empty => Kind::Empty,
            Value::Bool(_) => Kind::Bool,
            Value::Int(_) => Kind::Int,
            Value::Str(_) => Kind::Str,
            Value::Content(_) => Kind::Content,
            Value::Array(_) => Kind::Array,
            Value::Func(_) => Kind::Func,
            Value::Module(_) => Kind::Module,
            Value::Type(_) => Kind::Type,
            Value::Dyn(_) => Kind::Other,
        }
    }

    /// The kind of the value.
    pub fn kind(&self) -> (kind: Kind)
        ensures
            kind == self.spec_kind(),
    {
        match self {
            Value::Empty => Kind::Empty,
            Value::Bool(_) => Kind::Bool,
            Value::Int(_) => Kind::Int,
            Value::Str(_) => Kind::Str,
            Value::Content(_) => Kind::Content,
            Value::Array(_) => Kind::Array,
            Value::Func(_) => Kind::Func,
            Value::Module(_) => Kind::Module,
            Value::Type(_) => Kind::Type,
            Value::Dyn(_) => Kind::Other,
        }
    }

    /// The name of the type of the value as diagnostics show it.
    pub open spec fn spec_ty(self) -> Seq<char> {
        match self {
            Value::Dyn(dynamic) => dynamic.ty@,
            _ => self.spec_kind().spec_name(),
        }
    }

    /// The name of the type of the value as diagnostics show it.
    pub fn ty(&self) -> (name: &str)
        ensures
            name@ == self.spec_ty(),
    {
        match self {
            Value::Dyn(dynamic) => dynamic.ty.as_str(),
            _ => self.kind().name(),
        }
    }

    /// The scope that the value exposes, if it is a module, a type
    /// descriptor or a callable with a scope.
    pub fn scope(&self) -> (scope: Option<&Scope>)
        ensures
            scope is Some <==> scope_of(*self) is Some,
            scope matches Some(s) ==> *s == scope_of(*self)->0,
    {
        match self {
            Value::Func(func) => func.scope(),
            Value::Type(ty) => Some(ty.scope()),
            Value::Module(module) => Some(module.scope()),
            _ => None,
        }
    }
}

/// A value bound to a name, with the place where the name was defined.
#[derive(Debug, PartialEq)]
pub struct Binding {
    /// The bound value.
    pub value: Value,
    /// Where the name was defined.
    pub span: Span,
}

impl Clone for Binding {
    fn clone(&self) -> (copy: Self)
        ensures
            copy == *self,
    {
        Binding { value: self.value.clone(), span: self.span }
    }
}

impl Binding {
    /// Binds a value at a definition site.
    pub fn new(value: Value, span: Span) -> (binding: Self)
        ensures
            binding.value == value,
            binding.span == span,
    {
        Binding { value, span }
    }

    /// The bound value.
    pub fn read(&self) -> (value: &Value)
        ensures
            *value == self.value,
    {
        &self.value
    }

    /// Where the name was defined.
    pub fn span(&self) -> (span: Span)
        ensures
            span == self.span,
    {
        self.span
    }
}

} // verus!
