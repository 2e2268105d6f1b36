use vstd::prelude::*;
use crate::cartridge::{Cartridge, battery_kind, battery_ram_len, battery_ram_size, cartridge_kind, loadable, opt_view};
use crate::cartridge::metadata::header_of;

verus! {

/// The standard base64 text, padded, that `base64::encode` makes of `data`.
pub uninterp spec fn base64_text(data: Seq<u8>) -> Seq<char>;

/// What `base64::decode` makes of `text`: the bytes, or nothing where the
/// text is not standard padded base64.
pub uninterp spec fn base64_bytes(text: Seq<char>) -> Option<Seq<u8>>;

/// `base64::encode` with the standard alphabet and padding. Its text is
/// named, not stated, but for its length, four characters for every three
/// bytes begun, which the crate computes before it writes; the `requires`
/// keeps that length from overflowing, where the crate would panic.
#[verifier::external_body]
#[allow(deprecated)]
fn base64_encode(data: &[u8]) -> (r: String)
    requires
        4 * ((data@.len() + 2) / 3) <= usize::MAX,
    ensures
        r@ == base64_text(data@),
        r@.len() == 4 * ((data@.len() + 2) / 3),
{
    base64::encode(data)
}

/// `base64::decode` with the standard alphabet, its error dropped. Its bytes
/// are named, not stated: the same text gives the same bytes or the same
/// refusal.
#[verifier::external_body]
#[allow(deprecated)]
fn base64_decode(text: &str) -> (r: Option<Vec<u8>>)
    ensures
        opt_view(&r) == base64_bytes(text@),
{
    match base64::decode(text) {
        Ok(bytes) => Some(bytes),
        Err(_) => None,
    }
}

/// Whether the cartridge that a ROM image describes keeps its RAM on a battery.
pub open spec fn has_battery(rom: Seq<u8>) -> bool {
    battery_kind(cartridge_kind(header_of(rom).cartridge_type))
}

/// What a stored save, once decoded, comes to for a ROM image: for a
/// cartridge without battery, or where nothing could be decoded, no save;
/// a save that fits the battery RAM is taken; one of another size is refused
/// with its size.
pub open spec fn save_outcome(rom: Seq<u8>, decoded: Option<Seq<u8>>) -> Result<Option<Seq<u8>>, nat> {
    if !has_battery(rom) {
        Ok(None)
    } else {
        match decoded {
            None => Ok(None),
            Some(d) => if d.len() == battery_ram_size(header_of(rom)) {
                Ok(Some(d))
            } else {
                Err(d.len())
            },
        }
    }
}

/// `save_outcome` over the values that a call hands back.
pub open spec fn outcome_view(r: Result<Option<Vec<u8>>, usize>) -> Result<Option<Seq<u8>>, nat> {
    match r {
        Ok(None) => Ok(None),
        Ok(Some(v)) => Ok(Some(v@)),
        Err(n) => Err(n as nat),
    }
}

/// Takes the decoded contents of a stored save for a ROM image, as
/// `save_outcome` says.
pub fn accept_save(rom: &Vec<u8>, decoded: Option<Vec<u8>>) -> (r: Result<Option<Vec<u8>>, usize>)
    requires
        loadable(rom@, None),
    ensures
        outcome_view(r) == save_outcome(rom@, opt_view(&decoded)),
        r matches Ok(Some(v)) ==> loadable(rom@, Some(v@)),
{
    match battery_ram_len(rom) {
        None => Ok(None),
        Some(n) => match decoded {
            None => Ok(None),
            Some(d) => if d.len() == n {
                Ok(Some(d))
            } else {
                Err(d.len())
            },
        },
    }
}

/// Decodes a save stored as base64 text and takes it for a ROM image, as
/// `save_outcome` says of the decoded bytes.
pub fn load_save_text(rom: &Vec<u8>, text: &str) -> (r: Result<Option<Vec<u8>>, usize>)
    requires
        loadable(rom@, None),
    ensures
        outcome_view(r) == save_outcome(rom@, base64_bytes(text@)),
        r matches Ok(Some(v)) ==> loadable(rom@, Some(v@)),
{
    let decoded = base64_decode(text);
    accept_save(rom, decoded)
}

/// The battery RAM of a cartridge as base64 text, to be stored; nothing for
/// a cartridge without battery.
pub fn save_text(cartridge: &Cartridge) -> (r: Option<String>)
    requires
        cartridge.wf(),
    ensures
        r is Some <==> cartridge.save() is Some,
        r matches Some(t) ==> t@ == base64_text(cartridge.save()->0),
{
    proof {
        cartridge.lemma_save_len();
    }
    match cartridge.save_data() {
        Some(data) => Some(base64_encode(data.as_slice())),
        None => None,
    }
}

} // verus!
