use vstd::prelude::*;

verus! {

/// The facade's unit vocabulary, read by its variants.
#[verifier::external_type_specification]
pub struct ExUnit(metrics::Unit);

/// The canonical label of each unit, as `metrics::Unit::as_canonical_label` gives it.
pub open spec fn canonical_label(u: metrics::Unit) -> Seq<char> {
    match u {
        metrics::Unit::Count => seq![],
        metrics::Unit::Percent => seq!['%'],
        metrics::Unit::Seconds => seq!['s'],
        metrics::Unit::Milliseconds => seq!['m', 's'],
        metrics::Unit::Microseconds => seq!['\u{3bc}', 's'],
        metrics::Unit::Nanoseconds => seq!['n', 's'],
        metrics::Unit::Tebibytes => seq!['T', 'i', 'B'],
        metrics::Unit::Gigibytes => seq!['G', 'i', 'B'],
        metrics::Unit::Mebibytes => seq!['M', 'i', 'B'],
        metrics::Unit::Kibibytes => seq!['K', 'i', 'B'],
        metrics::Unit::Bytes => seq!['B'],
        metrics::Unit::TerabitsPerSecond => seq!['T', 'b', 'p', 's'],
        metrics::Unit::GigabitsPerSecond => seq!['G', 'b', 'p', 's'],
        metrics::Unit::MegabitsPerSecond => seq!['M', 'b', 'p', 's'],
        metrics::Unit::KilobitsPerSecond => seq!['k', 'b', 'p', 's'],
        metrics::Unit::BitsPerSecond => seq!['b', 'p', 's'],
        metrics::Unit::CountPerSecond => seq!['/', 's'],
    }
}

/// Relies on `metrics::Unit::as_canonical_label`: one fixed label per variant.
pub assume_specification<'a>[ metrics::Unit::as_canonical_label ](u: &'a metrics::Unit) -> (r: &'a str)
    ensures
        r@ == canonical_label(*u),
;

/// The canonical label of `u`, as an owned string.
pub fn unit_label(u: &metrics::Unit) -> (r: String)
    ensures
        r@ == canonical_label(*u),
{
    u.as_canonical_label().to_owned()
}

} // verus!
