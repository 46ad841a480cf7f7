//! The name of the file that a template describes.

use crate::instruments::InstRecord;
use crate::netcdf_components::optional_text;
use crate::text::{
    contains, find, first_occurrence, from_chars, is_first_occurrence, lowercase, lowercase_of,
    occurs_at, to_chars,
};
use crate::tsv::copy_range;
use vstd::prelude::*;

verus! {

/// The part of the platform entry of an instrument that names the platform,
/// before it is put in lowercase. An instrument without an entry counts as
/// `fixed - unknown`. Where the entry holds `fixed - `, the part is what
/// stands between the first ` - ` and the next one, or the end; otherwise it
/// is the whole entry.
pub open spec fn platform_source(mobile_fixed: Option<Seq<char>>) -> Seq<char> {
    let given = match mobile_fixed {
        Some(entry) => entry,
        None => "fixed - unknown"@,
    };
    if contains(given, "fixed - "@) {
        let behind = given.skip(first_occurrence(given, " - "@) + 3);
        behind.take(first_occurrence(behind, " - "@))
    } else {
        given
    }
}

/// The platform as it stands in a file name.
pub open spec fn platform_text(mobile_fixed: Option<Seq<char>>) -> Seq<char> {
    lowercase_of(platform_source(mobile_fixed))
}

/// Picks the part of the platform entry that names the platform.
pub fn platform_part(mobile_fixed: &Option<String>) -> (out: String)
    ensures
        out@ == platform_source(optional_text(*mobile_fixed)),
{
    let given = match mobile_fixed {
        Some(entry) => to_chars(entry.as_str()),
        None => to_chars("fixed - unknown"),
    };
    let fixed = to_chars("fixed - ");
    let dash = to_chars(" - ");
    proof {
        reveal_strlit("fixed - ");
        reveal_strlit(" - ");
    }
    let at = find(&given, &fixed);
    assert(fixed@.len() == 8 && dash@.len() == 3);
    if at < given.len() {
        let first = find(&given, &dash);
        proof {
            let whole = given@.subrange(at as int, at + 8);
            assert(given@.subrange(at + 5, at + 8) =~= whole.subrange(5, 8));
            assert(whole.subrange(5, 8) =~= " - "@);
            assert(occurs_at(given@, " - "@, at + 5));
        }
        let behind = copy_range(&given, first + 3, given.len());
        assert(behind@ =~= given@.skip(first + 3));
        let next = find(&behind, &dash);
        let part = copy_range(&behind, 0, next);
        assert(part@ =~= behind@.take(next as int));
        from_chars(&part)
    } else {
        from_chars(&given)
    }
}

/// The platform of an instrument as it stands in a file name: the part of
/// its platform entry that names the platform, in lowercase.
pub fn normalize_platform(mobile_fixed: &Option<String>) -> (out: String)
    ensures
        out@ == platform_text(optional_text(*mobile_fixed)),
{
    let part = platform_part(mobile_fixed);
    lowercase(part.as_str())
}

/// The file name for an instrument on a platform: the name of the
/// instrument, or `unknown` where the record has none, the platform, the
/// start date and the data product, joined by underscores, and the version
/// suffix.
pub open spec fn file_name_text(
    instrument_name: Option<Seq<char>>,
    platform: Seq<char>,
    start_date: Seq<char>,
    data_product: Seq<char>,
) -> Seq<char> {
    let instrument = match instrument_name {
        Some(name) => name,
        None => "unknown"@,
    };
    instrument + "_"@ + platform + "_"@ + start_date + "_"@ + data_product + "_v1.0.nc"@
}

/// Composes the file name from its parts, with the platform as it was
/// normalised.
pub fn file_name_on_platform(
    instrument_name: &Option<String>,
    platform: &str,
    start_date: &str,
    data_product: &str,
) -> (out: String)
    ensures
        out@ == file_name_text(
            optional_text(*instrument_name),
            platform@,
            start_date@,
            data_product@,
        ),
{
    let mut out = match instrument_name {
        Some(name) => name.clone(),
        None => String::from_str("unknown"),
    };
    out.append("_");
    out.append(platform);
    out.append("_");
    out.append(start_date);
    out.append("_");
    out.append(data_product);
    out.append("_v1.0.nc");
    out
}

/// Composes the name of the file that holds the data product `data_product`
/// of an instrument from `start_date` on.
pub fn compose_file_name(record: &InstRecord, start_date: &str, data_product: &str) -> (out:
    String)
    ensures
        out@ == file_name_text(
            record@.instrument_name,
            platform_text(record@.mobile_fixed),
            start_date@,
            data_product@,
        ),
{
    let platform = normalize_platform(&record.mobile_fixed);
    file_name_on_platform(&record.instrument_name, platform.as_str(), start_date, data_product)
}

} // verus!
