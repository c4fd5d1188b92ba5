//! The manifest a guest module carries: one record per export, naming its
//! calling-convention version and the hash of its Rust signature.
use vstd::prelude::*;
use vstd::hash_map::StringHashMap;
use crate::abi::{str_eq, ABI_VERSION, MANIFEST_SECTION};
use crate::error::{OffloadError, OffloadErrorModel, RuntimeError, RuntimeErrorModel};
use crate::wire::{
    encode_str, encode_u32, encode_u64, postcard_take_str, postcard_take_u32, postcard_take_u64,
    lemma_strict_suffix_trans, str_bytes, strict_suffix, take_str, take_u32, take_u64, varint,
};

verus! {

/// One manifest entry.
#[derive(Clone, Debug, PartialEq, Eq)]
pub struct ManifestRecord {
    pub export_name: String,
    pub abi_version: u32,
    pub sig_hash: u64,
}

impl View for ManifestRecord {
    type V = (Seq<char>, u32, u64);

    open spec fn view(&self) -> (Seq<char>, u32, u64) {
        (self.export_name@, self.abi_version, self.sig_hash)
    }
}

/// The postcard encoding of a record: its three fields in order.
pub open spec fn record_bytes(record: (Seq<char>, u32, u64)) -> Seq<u8> {
    str_bytes(record.0) + varint(record.1 as nat) + varint(record.2 as nat)
}

/// Decoding one record from the front of `bytes`: the name, then the version,
/// then the hash, stopping at the first field postcard rejects.
pub open spec fn spec_take_record(bytes: Seq<u8>) -> Result<((Seq<char>, u32, u64), Seq<u8>), postcard::Error> {
    match postcard_take_str(bytes) {
        Err(e) => Err(e),
        Ok((name, r1)) => match postcard_take_u32(r1) {
            Err(e) => Err(e),
            Ok((abi, r2)) => match postcard_take_u64(r2) {
                Err(e) => Err(e),
                Ok((sig, r3)) => Ok(((name, abi, sig), r3)),
            },
        },
    }
}

/// A record's encoding followed by `rest` reads as its name's encoding,
/// then its version's varint, then its hash's varint, then `rest`.
proof fn lemma_record_bytes_split(record: (Seq<char>, u32, u64), rest: Seq<u8>)
    ensures
        record_bytes(record) + rest == str_bytes(record.0) + (varint(record.1 as nat) + (varint(
            record.2 as nat,
        ) + rest)),
{
    assert(record_bytes(record) + rest =~= str_bytes(record.0) + (varint(record.1 as nat) + (
    varint(record.2 as nat) + rest)));
}

impl ManifestRecord {
    pub fn new(export_name: &str, abi_version: u32, sig_hash: u64) -> (record: Self)
        ensures
            record@ == (export_name@, abi_version, sig_hash),
    {
        ManifestRecord { export_name: export_name.to_owned(), abi_version, sig_hash }
    }

    /// The record's postcard encoding.
    pub fn to_bytes(&self) -> (bytes: Vec<u8>)
        ensures
            bytes@ == record_bytes(self@),
    {
        let mut out = match encode_str(self.export_name.as_str()) {
            Ok(v) => v,
            Err(_) => return Vec::new(),
        };
        let mut abi = match encode_u32(self.abi_version) {
            Ok(v) => v,
            Err(_) => return Vec::new(),
        };
        let mut sig = match encode_u64(self.sig_hash) {
            Ok(v) => v,
            Err(_) => return Vec::new(),
        };
        out.append(&mut abi);
        out.append(&mut sig);
        out
    }

    /// Decodes one record from the front of `bytes` and hands back the rest.
    /// Records are self-delimiting: the encoding of a record followed by any
    /// bytes decodes to that record, leaving exactly those bytes.
    pub fn take_from_bytes(bytes: &[u8]) -> (r: Result<(ManifestRecord, &[u8]), postcard::Error>)
        ensures
            match r {
                Ok((record, rest)) => spec_take_record(bytes@) == Ok::<((Seq<char>, u32, u64), Seq<u8>), postcard::Error>((record@, rest@))
                    && strict_suffix(rest@, bytes@),
                Err(e) => spec_take_record(bytes@) == Err::<((Seq<char>, u32, u64), Seq<u8>), postcard::Error>(e),
            },
            forall|record: (Seq<char>, u32, u64), rest: Seq<u8>|
                #[trigger] (record_bytes(record) + rest) == bytes@ ==> (r matches Ok((decoded, tail))
                    && decoded@ == record && tail@ == rest),
    {
        let (name, r1) = match take_str(bytes) {
            Ok(p) => p,
            Err(e) => {
                proof {
                    assert forall|record: (Seq<char>, u32, u64), rest: Seq<u8>|
                        #[trigger] (record_bytes(record) + rest) == bytes@ implies false by {
                        lemma_record_bytes_split(record, rest);
                    }
                }
                return Err(e);
            },
        };
        let (abi, r2) = match take_u32(r1) {
            Ok(p) => p,
            Err(e) => {
                proof {
                    assert forall|record: (Seq<char>, u32, u64), rest: Seq<u8>|
                        #[trigger] (record_bytes(record) + rest) == bytes@ implies false by {
                        lemma_record_bytes_split(record, rest);
                    }
                }
                return Err(e);
            },
        };
        let (sig, r3) = match take_u64(r2) {
            Ok(p) => p,
            Err(e) => {
                proof {
                    assert forall|record: (Seq<char>, u32, u64), rest: Seq<u8>|
                        #[trigger] (record_bytes(record) + rest) == bytes@ implies false by {
                        lemma_record_bytes_split(record, rest);
                    }
                }
                return Err(e);
            },
        };
        proof {
            lemma_strict_suffix_trans(r3@, r2@, r1@);
            lemma_strict_suffix_trans(r3@, r1@, bytes@);
            assert forall|record: (Seq<char>, u32, u64), rest: Seq<u8>|
                #[trigger] (record_bytes(record) + rest) == bytes@ implies name@ == record.0
                && abi == record.1 && sig == record.2 && r3@ == rest by {
                lemma_record_bytes_split(record, rest);
            }
        }
        Ok((ManifestRecord { export_name: name, abi_version: abi, sig_hash: sig }, r3))
    }
}


/// A top-level item of a wasm module as the manifest reader sees it.
pub enum WasmPayload {
    /// A custom section: its name and contents.
    Custom { name: String, data: Vec<u8> },
    /// Any other section, header or end marker.
    Other,
    /// The parser stopped here: the module is malformed (the parser's message).
    Malformed(String),
}

pub enum WasmPayloadModel {
    Custom { name: Seq<char>, data: Seq<u8> },
    Other,
    Malformed(Seq<char>),
}

impl View for WasmPayload {
    type V = WasmPayloadModel;

    open spec fn view(&self) -> WasmPayloadModel {
        match self {
            WasmPayload::Custom { name, data } => WasmPayloadModel::Custom { name: name@, data: data@ },
            WasmPayload::Other => WasmPayloadModel::Other,
            WasmPayload::Malformed(m) => WasmPayloadModel::Malformed(m@),
        }
    }
}

/// The items `wasmparser::Parser::parse_all` yields for a module, in order.
pub uninterp spec fn wasm_payloads(module: Seq<u8>) -> Seq<WasmPayloadModel>;

/// `wasmparser::Parser::new(0).parse_all`, each item converted to a
/// [`WasmPayload`]. Trusted: the sequence is the named [`wasm_payloads`] of the
/// module; what wasmparser accepts is not restated.
#[verifier::external_body]
pub(crate) fn parse_payloads(module: &[u8]) -> (payloads: Vec<WasmPayload>)
    ensures
        payloads@.map_values(|p: WasmPayload| p@) == wasm_payloads(module@),
{
    wasmparser::Parser::new(0).parse_all(module).map(|payload| match payload {
        Ok(wasmparser::Payload::CustomSection(section)) => WasmPayload::Custom {
            name: section.name().to_string(),
            data: section.data().to_vec(),
        },
        Ok(_) => WasmPayload::Other,
        Err(error) => WasmPayload::Malformed(error.to_string()),
    }).collect()
}

/// Folds the records of one manifest section into `acc`: every record must
/// speak this host's calling-convention version, and an export may be listed
/// again only with the same hash. (Each decoded record consumes at least one
/// byte, so the length guard always holds.)
pub open spec fn ingest_records(acc: Map<Seq<char>, u64>, data: Seq<u8>) -> Result<Map<Seq<char>, u64>, OffloadErrorModel>
    decreases data.len(),
{
    if data.len() == 0 {
        Ok(acc)
    } else {
        match spec_take_record(data) {
            Err(e) => Err(OffloadErrorModel::Runtime(RuntimeErrorModel::MalformedManifest(e))),
            Ok((record, rest)) => if record.1 != ABI_VERSION {
                Err(OffloadErrorModel::AbiVersion { host: ABI_VERSION, guest: record.1 })
            } else if acc.contains_key(record.0) && acc[record.0] != record.2 {
                Err(OffloadErrorModel::Runtime(RuntimeErrorModel::ConflictingRecords(record.0)))
            } else if rest.len() < data.len() {
                ingest_records(acc.insert(record.0, record.2), rest)
            } else {
                Ok(acc)
            },
        }
    }
}

/// Folds every manifest section of a module, in order, into `acc`; the first
/// malformed item or bad record ends the fold with its error.
pub open spec fn ingest_payloads(acc: Map<Seq<char>, u64>, payloads: Seq<WasmPayloadModel>) -> Result<Map<Seq<char>, u64>, OffloadErrorModel>
    decreases payloads.len(),
{
    if payloads.len() == 0 {
        Ok(acc)
    } else {
        match payloads[0] {
            WasmPayloadModel::Malformed(m) => Err(OffloadErrorModel::Runtime(RuntimeErrorModel::MalformedModule(m))),
            WasmPayloadModel::Custom { name, data } => if name == MANIFEST_SECTION@ {
                match ingest_records(acc, data) {
                    Err(e) => Err(e),
                    Ok(next) => ingest_payloads(next, payloads.drop_first()),
                }
            } else {
                ingest_payloads(acc, payloads.drop_first())
            },
            WasmPayloadModel::Other => ingest_payloads(acc, payloads.drop_first()),
        }
    }
}

/// The manifest of a module: export name to signature hash.
pub open spec fn spec_parse_manifest(module: Seq<u8>) -> Result<Map<Seq<char>, u64>, OffloadErrorModel> {
    ingest_payloads(Map::empty(), wasm_payloads(module))
}

/// The exports a guest module declares, each with its signature hash.
pub struct Manifest {
    exports: StringHashMap<u64>,
}

impl View for Manifest {
    type V = Map<Seq<char>, u64>;

    closed spec fn view(&self) -> Map<Seq<char>, u64> {
        self.exports@
    }
}

pub open spec fn result_model(r: Result<Manifest, OffloadError>) -> Result<Map<Seq<char>, u64>, OffloadErrorModel> {
    match r {
        Ok(m) => Ok(m@),
        Err(e) => Err(e@),
    }
}

/// Accepts a guest only if it speaks this host's calling-convention version.
pub fn check_guest_abi(guest: u32) -> (r: Result<(), OffloadError>)
    ensures
        r is Ok <==> guest == ABI_VERSION,
        r is Err ==> r->Err_0@ == (OffloadErrorModel::AbiVersion { host: ABI_VERSION, guest }),
{
    if guest != ABI_VERSION {
        Err(OffloadError::AbiVersion { host: ABI_VERSION, guest })
    } else {
        Ok(())
    }
}

/// What checking `export` against signature `sig` yields, given the manifest
/// and the exports already checked: the outcome and the new set of checked
/// exports.
pub open spec fn check_outcome(
    manifest: Map<Seq<char>, u64>,
    checked: Map<Seq<char>, u64>,
    export: Seq<char>,
    sig: u64,
) -> (Result<(), OffloadErrorModel>, Map<Seq<char>, u64>) {
    if checked.contains_key(export) && checked[export] == sig {
        (Ok(()), checked)
    } else if !manifest.contains_key(export) {
        (Err(OffloadErrorModel::MissingExport(export)), checked)
    } else if manifest[export] != sig {
        (
            Err(
                OffloadErrorModel::SignatureMismatch {
                    export,
                    expected: sig,
                    found: manifest[export],
                },
            ),
            checked,
        )
    } else {
        (Ok(()), checked.insert(export, sig))
    }
}

/// Every remembered check agrees with the manifest.
pub open spec fn checks_agree(manifest: Map<Seq<char>, u64>, checked: Map<Seq<char>, u64>) -> bool {
    forall|k: Seq<char>| #[trigger] checked.contains_key(k) ==> manifest.contains_key(k) && manifest[k] == checked[k]
}

pub open spec fn unit_model(r: Result<(), OffloadError>) -> Result<(), OffloadErrorModel> {
    match r {
        Ok(()) => Ok(()),
        Err(e) => Err(e@),
    }
}

/// Remembering checks never changes their outcome: as long as the remembered
/// checks agree with the manifest, a check succeeds exactly when the manifest
/// lists the export with that signature hash, and the remembered checks still
/// agree with the manifest afterwards.
pub proof fn lemma_checked_cache_is_transparent(
    manifest: Map<Seq<char>, u64>,
    checked: Map<Seq<char>, u64>,
    export: Seq<char>,
    sig: u64,
)
    requires
        checks_agree(manifest, checked),
    ensures
        (check_outcome(manifest, checked, export, sig).0 is Ok) <==> (manifest.contains_key(export)
            && manifest[export] == sig),
        checks_agree(manifest, check_outcome(manifest, checked, export, sig).1),
{
}

/// Nothing remembered yet agrees with any manifest.
pub proof fn lemma_no_checks_agree(manifest: Map<Seq<char>, u64>)
    ensures
        checks_agree(manifest, Map::empty()),
{
}

/// The exports whose signature hash has already been checked.
pub struct CheckedExports {
    checked: StringHashMap<u64>,
}

impl View for CheckedExports {
    type V = Map<Seq<char>, u64>;

    closed spec fn view(&self) -> Map<Seq<char>, u64> {
        self.checked@
    }
}

impl CheckedExports {
    pub fn new() -> (c: Self)
        ensures
            c@ == Map::<Seq<char>, u64>::empty(),
    {
        CheckedExports { checked: StringHashMap::new() }
    }
}

impl Manifest {
    /// The signature hash the manifest records for `export`.
    pub fn get(&self, export: &str) -> (r: Option<u64>)
        ensures
            r == (if self@.contains_key(export@) { Some(self@[export@]) } else { None }),
    {
        match self.exports.get(export) {
            Some(v) => Some(*v),
            None => None,
        }
    }

    /// Checks that the guest exports `export` with signature hash `sig`,
    /// remembering exports that passed so the next call skips the lookup.
    pub fn check_signature(&self, checked: &mut CheckedExports, export: &str, sig: u64) -> (r: Result<(), OffloadError>)
        ensures
            (unit_model(r), final(checked)@) == check_outcome(self@, old(checked)@, export@, sig),
    {
        match checked.checked.get(export) {
            Some(previous) => {
                if *previous == sig {
                    return Ok(());
                }
            },
            None => {},
        }
        let found = match self.exports.get(export) {
            Some(found) => *found,
            None => return Err(OffloadError::MissingExport(export.to_owned())),
        };
        if found != sig {
            return Err(OffloadError::SignatureMismatch { export: export.to_owned(), expected: sig, found });
        }
        checked.checked.insert(export.to_owned(), sig);
        Ok(())
    }

    /// Admits a prepared guest: it must speak this host's calling-convention
    /// version, then its manifest is read from the module.
    pub fn for_guest(guest_abi: u32, module: &[u8]) -> (r: Result<Manifest, OffloadError>)
        ensures
            guest_abi != ABI_VERSION ==> r is Err && r->Err_0@ == (OffloadErrorModel::AbiVersion {
                host: ABI_VERSION,
                guest: guest_abi,
            }),
            guest_abi == ABI_VERSION ==> result_model(r) == spec_parse_manifest(module@),
    {
        match check_guest_abi(guest_abi) {
            Ok(()) => {},
            Err(e) => return Err(e),
        }
        Self::parse(module)
    }

    /// Reads the records of one manifest section into `exports`.
    fn ingest_section(exports: &mut StringHashMap<u64>, data: &[u8]) -> (r: Result<(), OffloadError>)
        ensures
            match r {
                Ok(()) => ingest_records(old(exports)@, data@) == Ok::<Map<Seq<char>, u64>, OffloadErrorModel>(final(exports)@),
                Err(e) => ingest_records(old(exports)@, data@) == Err::<Map<Seq<char>, u64>, OffloadErrorModel>(e@),
            },
    {
        let mut bytes: &[u8] = data;
        while bytes.len() > 0
            invariant
                ingest_records(old(exports)@, data@) == ingest_records(exports@, bytes@),
            decreases bytes@.len(),
        {
            let (record, rest) = match ManifestRecord::take_from_bytes(bytes) {
                Ok(p) => p,
                Err(e) => return Err(OffloadError::Runtime(RuntimeError::MalformedManifest(e))),
            };
            if record.abi_version != ABI_VERSION {
                return Err(OffloadError::AbiVersion { host: ABI_VERSION, guest: record.abi_version });
            }
            match exports.get(record.export_name.as_str()) {
                Some(previous) => {
                    if *previous != record.sig_hash {
                        return Err(OffloadError::Runtime(RuntimeError::ConflictingRecords(record.export_name)));
                    }
                },
                None => {},
            }
            exports.insert(record.export_name, record.sig_hash);
            bytes = rest;
        }
        Ok(())
    }

    /// Collects the manifest a module carries in its `offload-manifest`
    /// custom sections.
    pub fn parse(module: &[u8]) -> (r: Result<Manifest, OffloadError>)
        ensures
            result_model(r) == spec_parse_manifest(module@),
    {
        let payloads = parse_payloads(module);
        let ghost all = payloads@.map_values(|p: WasmPayload| p@);
        let mut exports: StringHashMap<u64> = StringHashMap::new();
        let mut i: usize = 0;
        assert(all.skip(0) =~= all);
        while i < payloads.len()
            invariant
                all == payloads@.map_values(|p: WasmPayload| p@),
                all == wasm_payloads(module@),
                i <= payloads@.len(),
                spec_parse_manifest(module@) == ingest_payloads(exports@, all.skip(i as int)),
            decreases payloads@.len() - i,
        {
            let ghost rest = all.skip(i as int);
            assert(rest[0] == payloads@[i as int]@);
            assert(rest.drop_first() =~= all.skip(i + 1));
            match &payloads[i] {
                WasmPayload::Malformed(message) => {
                    return Err(OffloadError::Runtime(RuntimeError::MalformedModule(message.clone())));
                },
                WasmPayload::Custom { name, data } => {
                    if str_eq(name.as_str(), MANIFEST_SECTION) {
                        match Self::ingest_section(&mut exports, data.as_slice()) {
                            Ok(()) => {},
                            Err(e) => return Err(e),
                        }
                    }
                },
                WasmPayload::Other => {},
            }
            i += 1;
        }
        assert(all.skip(i as int) =~= Seq::<WasmPayloadModel>::empty());
        Ok(Manifest { exports })
    }
}

/// What checking `export` against signature hash `sig` answers, given the
/// manifest alone: success exactly when the manifest lists the export with
/// that hash; otherwise the export is missing, or its hash differs.
pub open spec fn lookup_outcome(manifest: Map<Seq<char>, u64>, export: Seq<char>, sig: u64) -> Result<(), OffloadErrorModel> {
    if !manifest.contains_key(export) {
        Err(OffloadErrorModel::MissingExport(export))
    } else if manifest[export] != sig {
        Err(OffloadErrorModel::SignatureMismatch { export, expected: sig, found: manifest[export] })
    } else {
        Ok(())
    }
}

/// A guest's manifest together with the checks already passed against it;
/// the remembered checks always agree with the manifest.
pub struct CheckedManifest {
    manifest: Manifest,
    checked: CheckedExports,
}

impl CheckedManifest {
    #[verifier::type_invariant]
    spec fn remembered_checks_agree(self) -> bool {
        checks_agree(self.manifest@, self.checked@)
    }

    /// The manifest checks are made against.
    pub closed spec fn spec_manifest(self) -> Map<Seq<char>, u64> {
        self.manifest@
    }

    /// Starts checking against `manifest`, with nothing remembered yet.
    pub fn new(manifest: Manifest) -> (c: Self)
        ensures
            c.spec_manifest() == manifest@,
    {
        let checked = CheckedExports::new();
        proof {
            lemma_no_checks_agree(manifest@);
        }
        CheckedManifest { manifest, checked }
    }

    /// The manifest checks are made against.
    pub fn manifest(&self) -> (m: &Manifest)
        ensures
            m@ == self.spec_manifest(),
    {
        &self.manifest
    }

    /// Checks that the guest exports `export` with signature hash `sig`.
    /// Remembering passed checks never changes an answer: the check succeeds
    /// exactly when the manifest lists the export with that hash, and
    /// otherwise reports the export missing or the hash it has.
    pub fn check(&mut self, export: &str, sig: u64) -> (r: Result<(), OffloadError>)
        ensures
            final(self).spec_manifest() == old(self).spec_manifest(),
            unit_model(r) == lookup_outcome(old(self).spec_manifest(), export@, sig),
    {
        proof {
            use_type_invariant(&*self);
            lemma_no_checks_agree(self.manifest@);
        }
        let mut checked = CheckedExports::new();
        std::mem::swap(&mut checked, &mut self.checked);
        proof {
            lemma_checked_cache_is_transparent(self.manifest@, checked@, export@, sig);
        }
        let r = self.manifest.check_signature(&mut checked, export, sig);
        self.checked = checked;
        r
    }
}

} // verus!
