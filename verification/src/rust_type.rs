//! The shape of a Rust type as the attribute macros read it from a function signature.
//!
//! The macros only ever look at the last segment of a path, its first generic argument, whether
//! a type is a (mutable) reference, a slice, an array or an `impl Trait`, and the `Item = ..`
//! binding of an `impl Iterator`; [`RustType`] holds exactly that, as plain values.

use vstd::prelude::*;
use crate::naming::text_eq;

verus! {

/// One generic argument inside `<...>`.
#[derive(Debug)]
pub enum GenericArg {
    /// A type argument: `Vec<T>`.
    Type(RustType),
    /// An associated-type binding: `Iterator<Item = T>`.
    AssocType {
        /// The associated type's name (`Item`).
        ident: String,
        /// The bound type.
        ty: RustType,
    },
    /// A lifetime, a const argument or a constraint.
    Other,
}

/// The arguments of one path segment.
#[derive(Debug)]
pub enum PathArgs {
    /// No arguments: `String`.
    Bare,
    /// `<...>`: `Vec<T>`, `Iterator<Item = T>`.
    AngleBracketed(Vec<GenericArg>),
    /// `(...)`: `Fn(A) -> B`.
    Parenthesized,
}

/// One segment of a path: `std`, `vec`, `Vec<T>` in `std::vec::Vec<T>`.
#[derive(Debug)]
pub struct PathSegment {
    /// The segment's identifier.
    pub ident: String,
    /// Its arguments.
    pub arguments: PathArgs,
}

/// One bound of an `impl Trait` type.
#[derive(Debug)]
pub enum TypeBound {
    /// A trait bound, as the segments of the trait's path.
    Trait(Vec<PathSegment>),
    /// A lifetime or another kind of bound.
    Other,
}

/// The bounds of an `impl Trait` type: `impl Iterator<Item = Row> + Send`.
#[derive(Debug)]
pub struct ImplTrait {
    /// The bounds, in the order they were written.
    pub bounds: Vec<TypeBound>,
}

/// A Rust type as the attribute macros read it.
#[derive(Debug)]
pub enum RustType {
    /// A path type, as its segments: `std::vec::Vec<T>`.
    Path(Vec<PathSegment>),
    /// `&T` or `&mut T`.
    Reference {
        /// Whether the reference is `&mut`.
        mutable: bool,
        /// The referenced type.
        elem: Box<RustType>,
    },
    /// `[T]`.
    Slice(Box<RustType>),
    /// `[T; N]`.
    Array(Box<RustType>),
    /// `impl Trait`.
    ImplTrait(ImplTrait),
    /// Any other type (tuples, function pointers, trait objects, ...).
    Other,
}

/// The last segment of a path, if the path has one.
pub open spec fn last_segment(segments: Seq<PathSegment>) -> Option<PathSegment> {
    if segments.len() > 0 {
        Some(segments.last())
    } else {
        None
    }
}

/// Whether a type is a path whose last segment is named `name`.
pub open spec fn path_named(ty: RustType, name: Seq<char>) -> bool {
    match ty {
        RustType::Path(segments) => last_segment(segments@) matches Some(s) && s.ident@ == name,
        _ => false,
    }
}

/// The first generic argument of a segment, when it is `<...>` and that argument is a type.
pub open spec fn first_type_arg(segment: PathSegment) -> Option<RustType> {
    match segment.arguments {
        PathArgs::AngleBracketed(args) => if args@.len() > 0 {
            match args@[0] {
                GenericArg::Type(t) => Some(t),
                _ => None,
            }
        } else {
            None
        },
        _ => None,
    }
}

/// The `T` of `Name<T>`: the first type argument of the last segment of a path named `name`.
pub open spec fn generic_element(ty: RustType, name: Seq<char>) -> Option<RustType> {
    match ty {
        RustType::Path(segments) => match last_segment(segments@) {
            Some(s) => if s.ident@ == name { first_type_arg(s) } else { None },
            None => None,
        },
        _ => None,
    }
}

/// Whether a borrowed result stands for a spec option, both `None` or both the same type.
pub open spec fn same_type_option(r: Option<&RustType>, s: Option<RustType>) -> bool {
    match r {
        Some(t) => s == Some(*t),
        None => s is None,
    }
}

/// The first `Item = T` binding of a generic argument list, if any.
pub open spec fn item_binding(args: Seq<GenericArg>) -> Option<RustType>
    decreases args.len(),
{
    if args.len() == 0 {
        None
    } else {
        match args[0] {
            GenericArg::AssocType { ident, ty } => if ident@ == "Item"@ {
                Some(ty)
            } else {
                item_binding(args.drop_first())
            },
            _ => item_binding(args.drop_first()),
        }
    }
}

/// What one bound of an `impl Trait` says of the iterated item: the `Item` binding of a trait
/// whose last segment is `Iterator` with `<...>` arguments.
pub open spec fn bound_item(bound: TypeBound) -> Option<RustType> {
    match bound {
        TypeBound::Trait(segments) => match last_segment(segments@) {
            Some(s) => if s.ident@ == "Iterator"@ {
                match s.arguments {
                    PathArgs::AngleBracketed(args) => item_binding(args@),
                    _ => None,
                }
            } else {
                None
            },
            None => None,
        },
        TypeBound::Other => None,
    }
}

/// The iterated item of an `impl Trait`: the first bound, in order, that says what it is.
pub open spec fn bounds_item(bounds: Seq<TypeBound>) -> Option<RustType>
    decreases bounds.len(),
{
    if bounds.len() == 0 {
        None
    } else {
        match bound_item(bounds[0]) {
            Some(t) => Some(t),
            None => bounds_item(bounds.drop_first()),
        }
    }
}

/// Whether a type names a string: a path ending in `String` or `str`, or a reference to one
/// (through any number of references).
pub open spec fn is_str_type_spec(ty: RustType) -> bool
    decreases ty,
{
    match ty {
        RustType::Path(_) => path_named(ty, "String"@) || path_named(ty, "str"@),
        RustType::Reference { elem, .. } => is_str_type_spec(*elem),
        _ => false,
    }
}

/// Whether a result text is owned (`String`) or borrowed (`&str`).
#[derive(Debug, Clone, Copy, PartialEq, Eq, Structural)]
pub enum DuckStrKind {
    /// `String`.
    Owned,
    /// `&str`, of any lifetime.
    Borrowed,
}

/// The string kind of a type: `String` is owned, a reference to `str` is borrowed, anything
/// else is neither.
pub open spec fn str_kind_spec(ty: RustType) -> Option<DuckStrKind> {
    match ty {
        RustType::Path(_) => if path_named(ty, "String"@) { Some(DuckStrKind::Owned) } else { None },
        RustType::Reference { elem, .. } => if path_named(*elem, "str"@) {
            Some(DuckStrKind::Borrowed)
        } else {
            None
        },
        _ => None,
    }
}

/// The last segment of a path, borrowed.
fn last_segment_of(segments: &Vec<PathSegment>) -> (r: Option<&PathSegment>)
    ensures
        match r {
            Some(s) => last_segment(segments@) == Some(*s),
            None => last_segment(segments@) is None,
        },
{
    if segments.len() > 0 {
        Some(&segments[segments.len() - 1])
    } else {
        None
    }
}

/// Whether a type is a path whose last segment is named `name`.
pub fn is_path_named(ty: &RustType, name: &str) -> (r: bool)
    ensures
        r == path_named(*ty, name@),
{
    match ty {
        RustType::Path(segments) => match last_segment_of(segments) {
            Some(s) => text_eq(s.ident.as_str(), name),
            None => false,
        },
        _ => false,
    }
}

/// The first generic argument of a segment when it is written `<...>` and that argument is a
/// type; `None` otherwise.
pub fn extract_generic_arg_type(segment: &PathSegment) -> (r: Option<&RustType>)
    ensures
        same_type_option(r, first_type_arg(*segment)),
{
    match &segment.arguments {
        PathArgs::AngleBracketed(args) => {
            if args.len() > 0 {
                match &args[0] {
                    GenericArg::Type(t) => Some(t),
                    _ => None,
                }
            } else {
                None
            }
        },
        _ => None,
    }
}

/// The type of a generic argument; `expected a type` for a binding, lifetime or constant.
pub fn require_generic_arg_type(x: &GenericArg) -> (r: Result<&RustType, String>)
    ensures
        match r {
            Ok(t) => *x == GenericArg::Type(*t),
            Err(m) => x !is Type && m@ == "expected a type"@,
        },
{
    match x {
        GenericArg::Type(t) => Ok(t),
        _ => Err(String::from_str("expected a type")),
    }
}

/// The `T` of `Name<T>`; `None` when the type is not a path ending in `Name` or that segment
/// carries no type argument.
pub fn generic_element_type<'a>(ty: &'a RustType, name: &str) -> (r: Option<&'a RustType>)
    ensures
        same_type_option(r, generic_element(*ty, name@)),
{
    match ty {
        RustType::Path(segments) => match last_segment_of(segments) {
            Some(s) => {
                if text_eq(s.ident.as_str(), name) {
                    extract_generic_arg_type(s)
                } else {
                    None
                }
            },
            None => None,
        },
        _ => None,
    }
}

/// The `T` of `Vec<T>`.
pub fn vec_element_type(ty: &RustType) -> (r: Option<&RustType>)
    ensures
        same_type_option(r, generic_element(*ty, "Vec"@)),
{
    generic_element_type(ty, "Vec")
}

/// The `T` of `Option<T>`.
pub fn option_element_type(ty: &RustType) -> (r: Option<&RustType>)
    ensures
        same_type_option(r, generic_element(*ty, "Option"@)),
{
    generic_element_type(ty, "Option")
}

/// The first `Item = T` binding in a list of generic arguments.
fn item_binding_of(args: &Vec<GenericArg>) -> (r: Option<&RustType>)
    ensures
        same_type_option(r, item_binding(args@)),
{
    let mut i: usize = 0;
    assert(args@.skip(0) =~= args@);
    while i < args.len()
        invariant
            0 <= i <= args@.len(),
            item_binding(args@) == item_binding(args@.skip(i as int)),
        decreases args@.len() - i,
    {
        assert(args@.skip(i as int).drop_first() =~= args@.skip(i as int + 1));
        assert(args@.skip(i as int)[0] == args@[i as int]);
        match &args[i] {
            GenericArg::AssocType { ident, ty } => {
                if text_eq(ident.as_str(), "Item") {
                    return Some(ty);
                }
            },
            _ => {},
        }
        i = i + 1;
    }
    assert(args@.skip(i as int) =~= Seq::<GenericArg>::empty());
    None
}

/// The iterated item of one bound, as [`bound_item`] says.
fn bound_item_of(bound: &TypeBound) -> (r: Option<&RustType>)
    ensures
        same_type_option(r, bound_item(*bound)),
{
    match bound {
        TypeBound::Trait(segments) => match last_segment_of(segments) {
            Some(s) => {
                if text_eq(s.ident.as_str(), "Iterator") {
                    match &s.arguments {
                        PathArgs::AngleBracketed(args) => item_binding_of(args),
                        _ => None,
                    }
                } else {
                    None
                }
            },
            None => None,
        },
        TypeBound::Other => None,
    }
}

/// The `T` of `impl Iterator<Item = T>`: the `Item` binding of the first `Iterator` bound that
/// has one; `None` when no bound says.
pub fn iterator_item_type(impl_trait: &ImplTrait) -> (r: Option<&RustType>)
    ensures
        same_type_option(r, bounds_item(impl_trait.bounds@)),
{
    let bounds = &impl_trait.bounds;
    let mut i: usize = 0;
    assert(bounds@.skip(0) =~= bounds@);
    while i < bounds.len()
        invariant
            0 <= i <= bounds@.len(),
            bounds@ == impl_trait.bounds@,
            bounds_item(bounds@) == bounds_item(bounds@.skip(i as int)),
        decreases bounds@.len() - i,
    {
        assert(bounds@.skip(i as int).drop_first() =~= bounds@.skip(i as int + 1));
        assert(bounds@.skip(i as int)[0] == bounds@[i as int]);
        match bound_item_of(&bounds[i]) {
            Some(t) => {
                return Some(t);
            },
            None => {},
        }
        i = i + 1;
    }
    assert(bounds@.skip(i as int) =~= Seq::<TypeBound>::empty());
    None
}

/// Whether a type is `usize` (a path whose last segment is `usize`).
pub fn is_usize_type(ty: &RustType) -> (r: bool)
    ensures
        r == path_named(*ty, "usize"@),
{
    is_path_named(ty, "usize")
}

/// Whether a type is a borrowed slice of dynamic rows: `&[DuckDynamicRow]` (either mutability).
pub open spec fn is_dynamic_rows_ref_spec(ty: RustType) -> bool {
    match ty {
        RustType::Reference { elem, .. } => match *elem {
            RustType::Slice(row) => path_named(*row, "DuckDynamicRow"@),
            _ => false,
        },
        _ => false,
    }
}

/// Whether a type is `&[DuckDynamicRow]`.
pub fn is_dynamic_rows_ref(ty: &RustType) -> (r: bool)
    ensures
        r == is_dynamic_rows_ref_spec(*ty),
{
    match ty {
        RustType::Reference { elem, .. } => match &**elem {
            RustType::Slice(row) => is_path_named(row, "DuckDynamicRow"),
            _ => false,
        },
        _ => false,
    }
}

/// Whether a type names a string: `String`, `str`, or a reference to one of them.
pub fn is_str_type(ty: &RustType) -> (r: bool)
    ensures
        r == is_str_type_spec(*ty),
    decreases ty,
{
    match ty {
        RustType::Path(_) => is_path_named(ty, "String") || is_path_named(ty, "str"),
        RustType::Reference { elem, .. } => is_str_type(elem),
        _ => false,
    }
}

/// Whether a type is `SqlMacro` (a path whose last segment is `SqlMacro`).
pub fn is_sql_macro_type(ty: &RustType) -> (r: bool)
    ensures
        r == path_named(*ty, "SqlMacro"@),
{
    is_path_named(ty, "SqlMacro")
}

/// The string kind of a replacement-scan result: `String` is owned, `&str` borrowed.
pub fn replacement_scan_str_kind(ty: &RustType) -> (r: Option<DuckStrKind>)
    ensures
        r == str_kind_spec(*ty),
{
    match ty {
        RustType::Path(_) => {
            if is_path_named(ty, "String") {
                Some(DuckStrKind::Owned)
            } else {
                None
            }
        },
        RustType::Reference { elem, .. } => {
            if is_path_named(elem, "str") {
                Some(DuckStrKind::Borrowed)
            } else {
                None
            }
        },
        _ => None,
    }
}

} // verus!
