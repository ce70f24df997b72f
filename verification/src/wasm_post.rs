//! The binary post-processor: makes a compiled module's table visible
//! to a linking host by appending a named export for it.
//!
//! The module must carry exactly one table, which sits at table index
//! 0; any other count is a structural fault reported with the exact
//! count found. The module must already have an export section for the
//! new entry to attach to. The edit is all-or-nothing: on any failure
//! no re-encoded bytes are produced at all.
use vstd::prelude::*;

verus! {

/// Why post-processing a module failed.
#[derive(Clone, Copy, Debug, PartialEq, Eq, Structural)]
pub enum Error {
    DeserializeWasmError,
    MissingTableSection,
    InvalidTableSectionCount(usize),
    MissingExportSection,
    SerializeWasmError,
}

/// What an export entry refers to: a function, table, memory or
/// global, by its index.
pub ghost enum ExportTarget {
    Function(int),
    Table(int),
    Memory(int),
    Global(int),
}

#[verifier::external_type_specification]
#[verifier::external_body]
pub struct ExModule(parity_wasm::elements::Module);

/// The module a byte string decodes to, when it is a module's
/// encoding. A function of the bytes alone.
pub uninterp spec fn decode_of(bytes: Seq<u8>) -> Option<parity_wasm::elements::Module>;

/// The byte string a module encodes to, when it can be encoded. A
/// function of the module alone.
pub uninterp spec fn encode_of(m: parity_wasm::elements::Module) -> Option<Seq<u8>>;

/// The entry counts of a module's table sections, in section order.
pub uninterp spec fn module_table_sizes(m: parity_wasm::elements::Module) -> Seq<usize>;

/// Whether a module carries an export section.
pub uninterp spec fn module_has_exports(m: parity_wasm::elements::Module) -> bool;

/// The export names of a module's first export section, in order;
/// empty when it has no export section.
pub uninterp spec fn module_export_names(m: parity_wasm::elements::Module) -> Seq<Seq<char>>;

/// What each export of a module's first export section refers to, in
/// the same order as its names; empty when it has no export section.
pub uninterp spec fn module_export_targets(m: parity_wasm::elements::Module) -> Seq<ExportTarget>;

/// Everything in a module besides the entries of its export sections:
/// the header and each other section's content, in order.
pub uninterp spec fn module_other_sections(m: parity_wasm::elements::Module) -> Seq<Seq<u8>>;

/// Relies on parity_wasm::deserialize_buffer: decodes a module from
/// its binary encoding, or nothing when the bytes are not one.
#[verifier::external_body]
fn decode_module(bytes: &Vec<u8>) -> (r: Option<parity_wasm::elements::Module>)
    ensures
        r == decode_of(bytes@),
{
    parity_wasm::deserialize_buffer(bytes.as_slice()).ok()
}

/// Relies on Module::table_section and TableSection::entries: the
/// entry count of the first table section, or nothing when the module
/// has no table section.
#[verifier::external_body]
fn table_entry_count(m: &parity_wasm::elements::Module) -> (r: Option<usize>)
    ensures
        module_table_sizes(*m).len() == 0 ==> r is None,
        module_table_sizes(*m).len() > 0 ==> r == Some(module_table_sizes(*m)[0]),
{
    match m.table_section() {
        Some(section) => Some(section.entries().len()),
        None => None,
    }
}

/// Relies on Module::export_section_mut, ExportSection::entries_mut,
/// ExportEntry::new and Internal::Table: appends to the module's first
/// export section, when it has one, an export of the table at `index`
/// under `name`, and reports whether there was an export section; a
/// module without one is handed back untouched.
#[verifier::external_body]
fn push_table_export(m: &mut parity_wasm::elements::Module, name: &str, index: u32) -> (r: bool)
    ensures
        r == module_has_exports(*old(m)),
        module_has_exports(*final(m)) == module_has_exports(*old(m)),
        module_table_sizes(*final(m)) == module_table_sizes(*old(m)),
        module_other_sections(*final(m)) == module_other_sections(*old(m)),
        r ==> module_export_names(*final(m)) == module_export_names(*old(m)).push(name@),
        r ==> module_export_targets(*final(m)) == module_export_targets(*old(m)).push(
            ExportTarget::Table(index as int),
        ),
        !r ==> *final(m) == *old(m),
{
    match m.export_section_mut() {
        Some(exports) => {
            exports.entries_mut().push(
                parity_wasm::elements::ExportEntry::new(
                    name.to_string(),
                    parity_wasm::elements::Internal::Table(index),
                ),
            );
            true
        },
        None => false,
    }
}

/// Relies on parity_wasm::serialize: re-encodes the module, or nothing
/// when it cannot be encoded.
#[verifier::external_body]
fn encode_module(m: parity_wasm::elements::Module) -> (r: Option<Vec<u8>>)
    ensures
        match encode_of(m) {
            Some(b) => (r matches Some(v) && v@ == b),
            None => r is None,
        },
{
    parity_wasm::serialize(m).ok()
}

/// Whether a module passes the table check: it has a table section
/// whose first instance holds exactly one entry.
pub open spec fn spec_single_table(m: parity_wasm::elements::Module) -> bool {
    module_table_sizes(m).len() > 0 && module_table_sizes(m)[0] == 1
}

/// Whether one module is the other with one export appended: the same
/// module everywhere else, with `name`, referring to the table at
/// `index`, at the end of its first export section.
pub open spec fn spec_patched(
    m0: parity_wasm::elements::Module,
    m2: parity_wasm::elements::Module,
    name: Seq<char>,
    index: int,
) -> bool {
    &&& module_export_names(m2) == module_export_names(m0).push(name)
    &&& module_export_targets(m2) == module_export_targets(m0).push(ExportTarget::Table(index))
    &&& module_has_exports(m2) == module_has_exports(m0)
    &&& module_table_sizes(m2) == module_table_sizes(m0)
    &&& module_other_sections(m2) == module_other_sections(m0)
}

/// Add an export named "table" for the module's single table.
///
/// The module must carry exactly one table section holding exactly one
/// entry: no table section is `MissingTableSection`, and any entry
/// count other than one is `InvalidTableSectionCount` carrying that
/// exact count. The module must already have an export section:
/// without one nothing is added and the result is
/// `MissingExportSection`. On every failure the module is left exactly
/// as it was; on success the one new export, "table" referring to
/// table index 0, is appended and nothing else changes.
pub fn export_table(m: &mut parity_wasm::elements::Module) -> (r: Result<(), Error>)
    ensures
        module_table_sizes(*old(m)).len() == 0 ==> r == Err::<(), Error>(
            Error::MissingTableSection,
        ) && *final(m) == *old(m),
        module_table_sizes(*old(m)).len() > 0 && module_table_sizes(*old(m))[0] != 1 ==> r
            == Err::<(), Error>(
            Error::InvalidTableSectionCount(module_table_sizes(*old(m))[0]),
        ) && *final(m) == *old(m),
        spec_single_table(*old(m)) && !module_has_exports(*old(m)) ==> r == Err::<(), Error>(
            Error::MissingExportSection,
        ) && *final(m) == *old(m),
        spec_single_table(*old(m)) && module_has_exports(*old(m)) ==> r == Ok::<(), Error>(())
            && spec_patched(*old(m), *final(m), "table"@, 0),
{
    let count = match table_entry_count(m) {
        None => {
            return Err(Error::MissingTableSection);
        },
        Some(c) => c,
    };
    if count != 1 {
        return Err(Error::InvalidTableSectionCount(count));
    }
    if push_table_export(m, "table", 0) {
        Ok(())
    } else {
        Err(Error::MissingExportSection)
    }
}

/// Patch the module encoded in `bytes` and hand back its re-encoding.
///
/// Bytes that decode to no module are `DeserializeWasmError`. A
/// decoded module is checked and patched exactly as `export_table`
/// says, each structural fault handed through. The patched module,
/// which is the decoded one with the single "table" export appended
/// and nothing else changed, is re-encoded; a module that cannot be
/// re-encoded is `SerializeWasmError`. On any failure no output bytes
/// exist, so nothing half-edited can ever be written back.
pub fn process_bytes(bytes: &Vec<u8>) -> (r: Result<Vec<u8>, Error>)
    ensures
        decode_of(bytes@) is None ==> r == Err::<Vec<u8>, Error>(Error::DeserializeWasmError),
        decode_of(bytes@) matches Some(m0) ==> {
            &&& module_table_sizes(m0).len() == 0 ==> r == Err::<Vec<u8>, Error>(
                Error::MissingTableSection,
            )
            &&& module_table_sizes(m0).len() > 0 && module_table_sizes(m0)[0] != 1 ==> r
                == Err::<Vec<u8>, Error>(Error::InvalidTableSectionCount(module_table_sizes(m0)[0]))
            &&& spec_single_table(m0) && !module_has_exports(m0) ==> r == Err::<Vec<u8>, Error>(
                Error::MissingExportSection,
            )
            &&& spec_single_table(m0) && module_has_exports(m0) ==> exists|
                m2: parity_wasm::elements::Module,
            |
                {
                    &&& #[trigger] spec_patched(m0, m2, "table"@, 0)
                    &&& match encode_of(m2) {
                        Some(b) => (r matches Ok(v) && v@ == b),
                        None => r == Err::<Vec<u8>, Error>(Error::SerializeWasmError),
                    }
                }
        },
{
    let mut module = match decode_module(bytes) {
        None => {
            return Err(Error::DeserializeWasmError);
        },
        Some(m) => m,
    };
    let ghost m0 = module;
    match export_table(&mut module) {
        Ok(()) => {},
        Err(e) => {
            return Err(e);
        },
    }
    proof {
        assert(spec_patched(m0, module, "table"@, 0));
    }
    match encode_module(module) {
        Some(out) => Ok(out),
        None => Err(Error::SerializeWasmError),
    }
}

} // verus!
