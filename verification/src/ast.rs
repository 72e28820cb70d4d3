use vstd::prelude::*;

verus! {

/// One specifier of an import declaration. Only named specifiers bind a
/// local identifier that this pass recognizes; default and namespace
/// specifiers are tolerated but contribute no binding.
#[derive(Debug, Clone, PartialEq, Eq)]
pub enum ImportSpecifier {
    /// A named binding, `{ x }` or `{ orig as x }`: carries the local name.
    Named { local: String },
    /// A default binding, `x`.
    DefaultImport,
    /// A namespace binding, `* as x`.
    NamespaceImport,
}

/// An import declaration: a source-module string and its specifiers, in
/// source order.
#[derive(Debug, Clone, PartialEq, Eq)]
pub struct ImportDecl {
    pub src: String,
    pub specifiers: Vec<ImportSpecifier>,
}

/// A top-level item of a module, reduced to what this pass reads.
#[derive(Debug, Clone, PartialEq, Eq)]
pub enum ModuleItem {
    /// An import declaration.
    Import(ImportDecl),
    /// A `var`-kind declaration binding one identifier to a boolean literal:
    /// the shape of the declarations this pass synthesizes.
    FlagDecl { name: String, value: bool },
    /// Any other top-level item. The pass carries it through untouched; the
    /// handle lets the caller recognize its own node on the way out.
    Other(u64),
}

/// The reserved source-module name whose imports this pass consumes.
pub open spec fn universal_env() -> Seq<char> {
    "universal-env"@
}

/// Whether an item is an import declaration from the reserved module.
pub open spec fn is_env_import(item: ModuleItem) -> bool {
    match item {
        ModuleItem::Import(d) => d.src@ == universal_env(),
        _ => false,
    }
}

/// The local names bound by the named specifiers of `specs`, in order.
/// Default and namespace specifiers bind none.
pub open spec fn named_locals(specs: Seq<ImportSpecifier>) -> Seq<Seq<char>>
    decreases specs.len(),
{
    if specs.len() == 0 {
        Seq::empty()
    } else {
        named_locals(specs.drop_last()) + (match specs.last() {
            ImportSpecifier::Named { local } => seq![local@],
            _ => Seq::empty(),
        })
    }
}

/// Whether any specifier of `specs` is a named one.
pub open spec fn has_named_specifier(specs: Seq<ImportSpecifier>) -> bool {
    exists|j: int|
        0 <= j < specs.len() && (#[trigger] specs[j]) matches ImportSpecifier::Named { .. }
}

/// The names an item contributes to the capture list: the named locals of a
/// reserved-module import, nothing from any other item.
pub open spec fn item_locals(item: ModuleItem) -> Seq<Seq<char>> {
    match item {
        ModuleItem::Import(d) => if d.src@ == universal_env() {
            named_locals(d.specifiers@)
        } else {
            Seq::empty()
        },
        _ => Seq::empty(),
    }
}

/// All names captured from reserved-module imports across `items`, in
/// encounter order.
pub open spec fn captured(items: Seq<ModuleItem>) -> Seq<Seq<char>>
    decreases items.len(),
{
    if items.len() == 0 {
        Seq::empty()
    } else {
        captured(items.drop_last()) + item_locals(items.last())
    }
}

/// The items that survive the pass: everything but reserved-module imports,
/// in original relative order.
pub open spec fn passthrough(items: Seq<ModuleItem>) -> Seq<ModuleItem>
    decreases items.len(),
{
    if items.len() == 0 {
        Seq::empty()
    } else if is_env_import(items.last()) {
        passthrough(items.drop_last())
    } else {
        passthrough(items.drop_last()).push(items.last())
    }
}

} // verus!
