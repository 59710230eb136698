use vstd::prelude::*;
use vstd::string::StringExecFns;

verus! {

/// What a function of a contract module is marked as.
#[derive(Debug, Clone, Copy, PartialEq, Eq)]
pub enum Marker {
    Entrypoint,
    View,
    Tx,
}

/// The marker that an attribute's name stands for, if it is one.
pub open spec fn marker_spec(name: Seq<char>) -> Option<Marker> {
    if name == "entrypoint"@ {
        Some(Marker::Entrypoint)
    } else if name == "view"@ {
        Some(Marker::View)
    } else if name == "tx"@ {
        Some(Marker::Tx)
    } else {
        None
    }
}

/// The name under which the wrapper of a marked function is exported: the
/// entry point as `_start`, the others under a prefix that tells the marker.
pub open spec fn wrapper_name_spec(marker: Marker, name: Seq<char>) -> Seq<char> {
    match marker {
        Marker::Entrypoint => "_start"@,
        Marker::View => "__view_"@ + name,
        Marker::Tx => "__tx_"@ + name,
    }
}

/// Reads an attribute's name as a marker.
pub fn marker_of(name: &str) -> (r: Option<Marker>)
    ensures
        r == marker_spec(name@),
{
    let name: String = String::from_str(name);
    if name == String::from_str("entrypoint") {
        Some(Marker::Entrypoint)
    } else if name == String::from_str("view") {
        Some(Marker::View)
    } else if name == String::from_str("tx") {
        Some(Marker::Tx)
    } else {
        None
    }
}

/// The exported name of the wrapper of function `name` marked `marker`.
pub fn wrapper_name(marker: Marker, name: &str) -> (r: String)
    ensures
        r@ == wrapper_name_spec(marker, name@),
{
    match marker {
        Marker::Entrypoint => String::from_str("_start"),
        Marker::View => String::from_str("__view_").concat(name),
        Marker::Tx => String::from_str("__tx_").concat(name),
    }
}

} // verus!
