//! Endpoint format descriptors and format-negotiation resolution.
//!
//! A format descriptor is either unconstrained or an ordered list of
//! concrete format variants. Formats are declared once per endpoint at
//! stage construction and treated as fixed for the lifetime of the stage;
//! the only operation on them is answering a format query, optionally
//! intersected with a filter supplied by the peer.

use vstd::prelude::*;

verus! {

/// A media-format descriptor: either unconstrained, or an ordered list of
/// concrete format variants, each identified by a code.
#[derive(Debug)]
pub enum MediaFormat {
    /// Accepts any format.
    Any,
    /// Accepts exactly the listed format variants, in preference order.
    Variants(Vec<u64>),
}

/// The mathematical model of a format descriptor.
pub enum FormatModel {
    /// Accepts any format.
    Any,
    /// Accepts exactly the listed format variants, in preference order.
    Variants(Seq<u64>),
}

impl View for MediaFormat {
    type V = FormatModel;

    open spec fn view(&self) -> FormatModel {
        match self {
            MediaFormat::Any => FormatModel::Any,
            MediaFormat::Variants(v) => FormatModel::Variants(v@),
        }
    }
}

/// The variants of `first` that `second` also admits, in `first`'s order.
pub open spec fn common_variants(first: Seq<u64>, second: Seq<u64>) -> Seq<u64>
    decreases first.len(),
{
    if first.len() == 0 {
        Seq::empty()
    } else {
        let rest = common_variants(first.drop_last(), second);
        if second.contains(first.last()) {
            rest.push(first.last())
        } else {
            rest
        }
    }
}

/// The intersection of a filter with a declared format, preferring the
/// filter's ordering: the result lists the variants the filter admits that
/// the declared format also admits, in the filter's order. An
/// unconstrained side leaves the other side unchanged.
pub open spec fn intersect_model(filter: FormatModel, declared: FormatModel) -> FormatModel {
    match (filter, declared) {
        (FormatModel::Any, d) => d,
        (f, FormatModel::Any) => f,
        (FormatModel::Variants(fv), FormatModel::Variants(dv)) => FormatModel::Variants(
            common_variants(fv, dv),
        ),
    }
}

/// The answer to a format query: the declared format unchanged when no
/// filter is supplied, otherwise its intersection with the filter,
/// preferring the filter's ordering.
pub open spec fn resolve_model(declared: FormatModel, filter: Option<FormatModel>) -> FormatModel {
    match filter {
        None => declared,
        Some(f) => intersect_model(f, declared),
    }
}

/// Whether `v@` holds `x`.
fn variants_contain(v: &Vec<u64>, x: u64) -> (b: bool)
    ensures
        b == v@.contains(x),
{
    let mut i: usize = 0;
    while i < v.len()
        invariant
            i <= v@.len(),
            forall|j: int| 0 <= j < i ==> v@[j] != x,
        decreases v@.len() - i,
    {
        if v[i] == x {
            assert(v@[i as int] == x);
            return true;
        }
        i = i + 1;
    }
    assert(forall|j: int| 0 <= j < v@.len() ==> v@[j] != x);
    false
}

impl MediaFormat {
    /// A copy of this descriptor with the same model.
    pub fn duplicate(&self) -> (r: MediaFormat)
        ensures
            r@ == self@,
    {
        match self {
            MediaFormat::Any => MediaFormat::Any,
            MediaFormat::Variants(v) => {
                let c = v.clone();
                proof {
                    assert(c@ =~= v@);
                }
                MediaFormat::Variants(c)
            },
        }
    }
}

/// Resolves a format query against a declared format: with no filter the
/// declared format is returned unchanged; with a filter, the intersection
/// of the two, preferring the filter's ordering on the variants. Never
/// mutates the declared format.
pub fn resolve_format(declared: &MediaFormat, filter: Option<&MediaFormat>) -> (r: MediaFormat)
    ensures
        r@ == resolve_model(declared@, match filter {
            None => None,
            Some(f) => Some(f@),
        }),
{
    match filter {
        None => declared.duplicate(),
        Some(f) => match (f, declared) {
            (MediaFormat::Any, _) => declared.duplicate(),
            (_, MediaFormat::Any) => f.duplicate(),
            (MediaFormat::Variants(fv), MediaFormat::Variants(dv)) => {
                let mut kept: Vec<u64> = Vec::new();
                let mut i: usize = 0;
                while i < fv.len()
                    invariant
                        i <= fv@.len(),
                        kept@ == common_variants(fv@.subrange(0, i as int), dv@),
                    decreases fv@.len() - i,
                {
                    let ghost prefix = fv@.subrange(0, i as int);
                    if variants_contain(dv, fv[i]) {
                        kept.push(fv[i]);
                    }
                    proof {
                        let longer = fv@.subrange(0, i + 1);
                        assert(longer.drop_last() =~= prefix);
                        assert(longer.last() == fv@[i as int]);
                    }
                    i = i + 1;
                }
                proof {
                    assert(fv@.subrange(0, fv@.len() as int) =~= fv@);
                }
                MediaFormat::Variants(kept)
            },
        },
    }
}

/// An endpoint declaration: the endpoint's stable name together with its
/// declared format descriptor.
pub struct PadCaps {
    /// The endpoint's name, unique within its direction.
    pub name: String,
    /// The format descriptor declared for the endpoint.
    pub caps: MediaFormat,
}

/// Supplied by a processing-unit type: the static input and output
/// endpoint declarations for the stage, in endpoint-index order. Called at
/// stage construction only.
pub trait CapsDef {
    /// The input endpoint declarations, then the output endpoint
    /// declarations.
    fn caps_def() -> (Vec<PadCaps>, Vec<PadCaps>);
}

} // verus!
