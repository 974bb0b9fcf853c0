//! Normalisation of a type as written into a `SimpleType`.
use vstd::prelude::*;
use crate::syntax::{GenericArgumentSyntax, PathArgumentsSyntax, TypeSyntax};
use crate::types::{SimpleType, SimpleTypeError};

verus! {

broadcast use {
    vstd::std_specs::vec::axiom_vec_index_decreases,
    vstd::std_specs::vec::axiom_vec_decreases_to_view,
    vstd::seq::axiom_seq_index_decreases,
    vstd::seq::axiom_seq_subrange_decreases,
};

/// Whether a segment carries an argument list: an empty `<>` counts, as
/// it is written in the source.
pub open spec fn spec_args_present(a: PathArgumentsSyntax) -> bool {
    match a {
        PathArgumentsSyntax::NoArguments => false,
        PathArgumentsSyntax::AngleBracketed(_) => true,
        PathArgumentsSyntax::Parenthesized => true,
    }
}

/// The error that normalising `t` meets first, if any.
pub open spec fn type_error(t: TypeSyntax) -> Option<SimpleTypeError>
    decreases t,
{
    match t {
        TypeSyntax::Other => Some(SimpleTypeError::TypeIsNotPath),
        TypeSyntax::Path(p) => {
            let segs = p.segments;
            if p.qself {
                Some(SimpleTypeError::QSelf)
            } else if p.leading_colon {
                Some(SimpleTypeError::LeadingColon)
            } else if segs.len() == 0 {
                Some(SimpleTypeError::TypeIsNotPath)
            } else if exists|i: int| 0 <= i < segs.len() - 1 && spec_args_present(#[trigger] segs[i].arguments) {
                Some(SimpleTypeError::EarlyGenericArgs)
            } else {
                match segs[segs.len() - 1].arguments {
                    PathArgumentsSyntax::NoArguments => None,
                    PathArgumentsSyntax::Parenthesized => Some(SimpleTypeError::InvalidArgType),
                    PathArgumentsSyntax::AngleBracketed(v) => args_error(v@),
                }
            }
        },
    }
}

/// The error that normalising the generic arguments `s`, left to right,
/// meets first, if any.
pub open spec fn args_error(s: Seq<GenericArgumentSyntax>) -> Option<SimpleTypeError>
    decreases s,
{
    if s.len() == 0 {
        None
    } else {
        match s[0] {
            GenericArgumentSyntax::Other => Some(SimpleTypeError::InvalidGenericArgType),
            GenericArgumentSyntax::Type(t) => match type_error(t) {
                Some(e) => Some(e),
                None => args_error(s.subrange(1, s.len() as int)),
            },
        }
    }
}

/// `st` is the normal form of `t`: the identifiers of the path in order,
/// and the normal forms of the arguments of its last segment.
pub open spec fn represents(st: SimpleType, t: TypeSyntax) -> bool
    decreases t,
{
    match t {
        TypeSyntax::Other => false,
        TypeSyntax::Path(p) => {
            let segs = p.segments;
            &&& segs.len() > 0
            &&& st.path.len() == segs.len()
            &&& forall|i: int| 0 <= i < segs.len() ==> #[trigger] st.path[i]@ == segs[i].ident@
            &&& match segs[segs.len() - 1].arguments {
                PathArgumentsSyntax::AngleBracketed(v) => {
                    &&& st.generic_args.len() == v.len()
                    &&& forall|i: int| 0 <= i < v.len() ==> match #[trigger] v[i] {
                        GenericArgumentSyntax::Type(a) => represents(st.generic_args[i], a),
                        GenericArgumentSyntax::Other => false,
                    }
                },
                _ => st.generic_args.len() == 0,
            }
        },
    }
}

fn args_present(a: &PathArgumentsSyntax) -> (r: bool)
    ensures
        r == spec_args_present(*a),
{
    match a {
        PathArgumentsSyntax::NoArguments => false,
        PathArgumentsSyntax::AngleBracketed(_) => true,
        PathArgumentsSyntax::Parenthesized => true,
    }
}

impl SimpleType {
    /// Normalises a type as written. On success the result represents the
    /// type; otherwise the error is the first that the left-to-right walk
    /// of the path and its arguments meets.
    pub fn from_syn_type(ty: &TypeSyntax) -> (r: Result<SimpleType, SimpleTypeError>)
        ensures
            match r {
                Ok(st) => type_error(*ty) is None && represents(st, *ty),
                Err(e) => type_error(*ty) == Some(e),
            },
        decreases ty,
    {
        let p = match ty {
            TypeSyntax::Other => {
                return Err(SimpleTypeError::TypeIsNotPath);
            },
            TypeSyntax::Path(p) => p,
        };
        if p.qself {
            return Err(SimpleTypeError::QSelf);
        }
        if p.leading_colon {
            return Err(SimpleTypeError::LeadingColon);
        }
        let n = p.segments.len();
        if n == 0 {
            return Err(SimpleTypeError::TypeIsNotPath);
        }
        let mut path: Vec<String> = Vec::new();
        let mut i: usize = 0;
        while i < n - 1
            invariant
                *ty == TypeSyntax::Path(*p),
                !p.qself,
                !p.leading_colon,
                n == p.segments.len(),
                n > 0,
                i < n,
                path.len() == i,
                forall|j: int| 0 <= j < i ==> !spec_args_present(#[trigger] p.segments[j].arguments),
                forall|j: int| 0 <= j < i ==> #[trigger] path[j]@ == p.segments[j].ident@,
            decreases n - 1 - i,
        {
            if args_present(&p.segments[i].arguments) {
                assert(spec_args_present(p.segments[i as int].arguments));
                return Err(SimpleTypeError::EarlyGenericArgs);
            }
            path.push(p.segments[i].ident.clone());
            i = i + 1;
        }
        let last = &p.segments[n - 1];
        path.push(last.ident.clone());
        assert(forall|j: int| 0 <= j < n ==> #[trigger] path[j]@ == p.segments[j].ident@);
        match &last.arguments {
            PathArgumentsSyntax::NoArguments => Ok(SimpleType::new(path, Vec::new())),
            PathArgumentsSyntax::Parenthesized => Err(SimpleTypeError::InvalidArgType),
            PathArgumentsSyntax::AngleBracketed(v) => {
                let mut args: Vec<SimpleType> = Vec::new();
                let m = v.len();
                assert(v@.subrange(0, m as int) == v@);
                assert(type_error(*ty) == args_error(v@));
                assert(decreases_to!(*ty => *v));
                let mut k: usize = 0;
                while k < m
                    invariant
                        m == v.len(),
                        k <= m,
                        type_error(*ty) == args_error(v@),
                        decreases_to!(*ty => *v),
                        args.len() == k,
                        args_error(v@) == args_error(v@.subrange(k as int, m as int)),
                        forall|j: int| 0 <= j < k ==> match #[trigger] v[j] {
                            GenericArgumentSyntax::Type(a) => represents(args[j], a),
                            GenericArgumentSyntax::Other => false,
                        },
                    decreases m - k,
                {
                    let ghost rest = v@.subrange(k as int, m as int);
                    assert(rest[0] == v[k as int]);
                    assert(rest.subrange(1, rest.len() as int) == v@.subrange(k + 1, m as int));
                    match &v[k] {
                        GenericArgumentSyntax::Other => {
                            return Err(SimpleTypeError::InvalidGenericArgType);
                        },
                        GenericArgumentSyntax::Type(a) => {
                            assert(decreases_to!(*ty => *a));
                            match SimpleType::from_syn_type(a) {
                                Ok(st) => {
                                    args.push(st);
                                },
                                Err(e) => {
                                    return Err(e);
                                },
                            }
                        },
                    }
                    k = k + 1;
                }
                assert(v@.subrange(m as int, m as int).len() == 0);
                Ok(SimpleType::new(path, args))
            },
        }
    }
}

} // verus!
