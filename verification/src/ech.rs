//! Parsing of Encrypted-Client-Hello configuration out of the RDATA of an
//! HTTPS/SVCB answer record.
//!
//! The parser is total on malformed input: every bounds violation degrades to
//! "stop early" or to a raw base64 fallback entry, never a panic.

use vstd::prelude::*;
use vstd::slice::slice_subrange;
use base64::engine::general_purpose::STANDARD;
use base64::Engine;

verus! {

/// ECH config parameter key in SVCB/HTTPS records.
pub const ECH_PARAM_KEY: u16 = 5;

/// The standard (padded) base64 encoding of a byte sequence.
pub uninterp spec fn base64_of(bytes: Seq<u8>) -> Seq<char>;

/// The lossy UTF-8 decoding of a byte sequence.
pub uninterp spec fn utf8_lossy_of(bytes: Seq<u8>) -> Seq<char>;

/// Relies on base64's `Engine::encode` with the `STANDARD` engine: the result
/// is a pure function of the input bytes. The engine's output-length
/// computation cannot overflow for any length a Rust slice can have, so the
/// call returns for every input.
#[verifier::external_body]
fn encode_base64(bytes: &[u8]) -> (r: String)
    ensures
        r@ == base64_of(bytes@),
{
    STANDARD.encode(bytes)
}

/// Relies on `String::from_utf8_lossy`: the result is a pure function of the
/// input bytes, replacing invalid UTF-8 sequences with the replacement
/// character.
#[verifier::external_body]
fn utf8_lossy(bytes: &[u8]) -> (r: String)
    ensures
        r@ == utf8_lossy_of(bytes@),
{
    String::from_utf8_lossy(bytes).into_owned()
}

/// One ECH configuration descriptor, as extracted from an answer record.
///
/// Every variant carries the base64 re-encoding of the raw bytes it stands
/// for, so the original octets can always be recovered.
#[derive(Debug, Clone, PartialEq, Eq)]
pub enum EchConfigEntry {
    /// A config of a recognized draft version whose contents parsed.
    Parsed { version: u16, config_id: u8, kem_id: u16, public_name: String, base64: String },
    /// A config whose version or contents were not understood; only the
    /// version and the re-encoded bytes are reported.
    Unparsed { version: u16, base64: String },
    /// A fallback for an ECHConfigList that could not be parsed as a list:
    /// the whole value, base64-encoded.
    Raw { base64: String },
}

/// The mathematical model of an `EchConfigEntry`.
#[verifier::ext_equal]
pub enum EchEntryModel {
    Parsed { version: u16, config_id: u8, kem_id: u16, public_name: Seq<char>, base64: Seq<char> },
    Unparsed { version: u16, base64: Seq<char> },
    Raw { base64: Seq<char> },
}

impl View for EchConfigEntry {
    type V = EchEntryModel;

    open spec fn view(&self) -> EchEntryModel {
        match self {
            EchConfigEntry::Parsed { version, config_id, kem_id, public_name, base64 } =>
                EchEntryModel::Parsed {
                    version: *version,
                    config_id: *config_id,
                    kem_id: *kem_id,
                    public_name: public_name@,
                    base64: base64@,
                },
            EchConfigEntry::Unparsed { version, base64 } =>
                EchEntryModel::Unparsed { version: *version, base64: base64@ },
            EchConfigEntry::Raw { base64 } =>
                EchEntryModel::Raw { base64: base64@ },
        }
    }
}

/// The models of a sequence of entries.
pub open spec fn entries_view(v: Seq<EchConfigEntry>) -> Seq<EchEntryModel> {
    v.map_values(|e: EchConfigEntry| e@)
}

/// The structured fields read out of an ECHConfig's contents.
#[derive(Debug, Clone, PartialEq, Eq)]
pub struct EchConfigContents {
    pub config_id: u8,
    pub kem_id: u16,
    pub public_name: String,
}

/// The mathematical model of `EchConfigContents`.
#[verifier::ext_equal]
pub struct EchContentsModel {
    pub config_id: u8,
    pub kem_id: u16,
    pub public_name: Seq<char>,
}

impl View for EchConfigContents {
    type V = EchContentsModel;

    open spec fn view(&self) -> EchContentsModel {
        EchContentsModel {
            config_id: self.config_id,
            kem_id: self.kem_id,
            public_name: self.public_name@,
        }
    }
}

/// The big-endian 16-bit value of two bytes.
pub open spec fn be16(hi: u8, lo: u8) -> u16 {
    (hi * 256 + lo) as u16
}

/// Position just past the target-name field of an SVCB record: length-prefixed
/// labels are skipped until the zero terminator; a name that runs past the end
/// of the buffer ends the field at the end of the buffer.
pub open spec fn name_end(data: Seq<u8>, pos: int) -> int
    decreases data.len() - pos,
{
    if pos < 0 || pos >= data.len() {
        data.len() as int
    } else if data[pos] == 0 {
        pos + 1
    } else if pos + 1 + data[pos] > data.len() {
        data.len() as int
    } else {
        name_end(data, pos + 1 + data[pos])
    }
}

/// The entries contributed by the run of SvcParam records that starts at
/// `pos`: each record is a 2-byte big-endian key, a 2-byte big-endian value
/// length and the value bytes. Iteration stops at a truncated record. Every
/// parameter with the ECH key contributes the entries of its value.
pub open spec fn params_entries(data: Seq<u8>, pos: int) -> Seq<EchEntryModel>
    decreases data.len() - pos,
{
    if pos < 0 || pos + 4 > data.len() {
        Seq::empty()
    } else {
        let key = be16(data[pos], data[pos + 1]);
        let plen = be16(data[pos + 2], data[pos + 3]) as int;
        if pos + 4 + plen > data.len() {
            Seq::empty()
        } else {
            let value = data.subrange(pos + 4, pos + 4 + plen);
            let rest = params_entries(data, pos + 4 + plen);
            if key == ECH_PARAM_KEY {
                list_entries_or_empty(value) + rest
            } else {
                rest
            }
        }
    }
}

/// The entries of an ECHConfigList value, or none where the value is shorter
/// than its own length field. A value that declared a nonzero length but out
/// of which no config decoded falls back to a single raw entry; a declared
/// length of zero contributes no entries.
pub open spec fn list_entries(data: Seq<u8>) -> Option<Seq<EchEntryModel>> {
    if data.len() < 2 {
        None
    } else {
        let list_len = be16(data[0], data[1]) as int;
        if data.len() < 2 + list_len {
            Some(seq![EchEntryModel::Raw { base64: base64_of(data) }])
        } else {
            let configs = config_entries(data, 2, list_len);
            if configs.len() == 0 && list_len > 0 {
                Some(seq![EchEntryModel::Raw { base64: base64_of(data) }])
            } else {
                Some(configs)
            }
        }
    }
}

/// What a key-5 value contributes to the result: the entries of its list, or
/// nothing where the value cannot carry a list at all.
pub open spec fn list_entries_or_empty(value: Seq<u8>) -> Seq<EchEntryModel> {
    match list_entries(value) {
        Some(es) => es,
        None => Seq::empty(),
    }
}

/// The ECHConfig structures of a list, starting at `pos`: each is a 2-byte
/// version, a 2-byte length and that many content bytes. Iteration stops on
/// underrun or once past the declared list length.
pub open spec fn config_entries(data: Seq<u8>, pos: int, list_len: int) -> Seq<EchEntryModel>
    decreases data.len() - pos,
{
    if !(0 <= pos && pos + 4 <= data.len() && pos < 2 + list_len) {
        Seq::empty()
    } else {
        let version = be16(data[pos], data[pos + 1]);
        let clen = be16(data[pos + 2], data[pos + 3]) as int;
        if pos + 4 + clen > data.len() {
            Seq::empty()
        } else {
            let whole = data.subrange(pos, pos + 4 + clen);
            let contents = data.subrange(pos + 4, pos + 4 + clen);
            let entry = match contents_model(version, contents) {
                Some(c) => EchEntryModel::Parsed {
                    version: version,
                    config_id: c.config_id,
                    kem_id: c.kem_id,
                    public_name: c.public_name,
                    base64: base64_of(whole),
                },
                None => EchEntryModel::Unparsed { version: version, base64: base64_of(whole) },
            };
            seq![entry] + config_entries(data, pos + 4 + clen, list_len)
        }
    }
}

/// The structured fields of an ECHConfig's contents, for the recognized draft
/// versions; none where the version is unknown or a declared length overruns
/// the buffer.
pub open spec fn contents_model(version: u16, d: Seq<u8>) -> Option<EchContentsModel> {
    if version != 0xfe0d && version != 0xfe0e {
        None
    } else if d.len() < 10 {
        None
    } else {
        let pk_len = be16(d[3], d[4]) as int;
        if 5 + pk_len > d.len() {
            None
        } else {
            let p1 = 5 + pk_len;
            if p1 + 2 > d.len() {
                None
            } else {
                let p2 = p1 + 2 + be16(d[p1], d[p1 + 1]) as int;
                if p2 >= d.len() {
                    None
                } else {
                    let p3 = p2 + 1;
                    if p3 >= d.len() {
                        None
                    } else {
                        let name_len = d[p3] as int;
                        let p4 = p3 + 1;
                        if p4 + name_len > d.len() {
                            None
                        } else {
                            Some(EchContentsModel {
                                config_id: d[0],
                                kem_id: be16(d[1], d[2]),
                                public_name: utf8_lossy_of(d.subrange(p4, p4 + name_len)),
                            })
                        }
                    }
                }
            }
        }
    }
}

/// The entries of a whole SVCB/HTTPS RDATA buffer: a 2-byte priority, the
/// target name, then the SvcParam run.
pub open spec fn svcb_ech_entries(data: Seq<u8>) -> Seq<EchEntryModel> {
    if data.len() < 3 {
        Seq::empty()
    } else {
        params_entries(data, name_end(data, 2))
    }
}

/// The model of `parse_ech_config`: the entries of the buffer, or none where
/// there are no entries at all.
pub open spec fn parse_ech_model(data: Seq<u8>) -> Option<Seq<EchEntryModel>> {
    if svcb_ech_entries(data).len() == 0 {
        None
    } else {
        Some(svcb_ech_entries(data))
    }
}

/// The big-endian 16-bit value of two bytes.
fn read_be16(hi: u8, lo: u8) -> (r: u16)
    ensures
        r == be16(hi, lo),
{
    (hi as u16) * 256 + (lo as u16)
}

/// Parse ECH config entries from raw DNS response data.
///
/// Returns `None` on a buffer shorter than 3 bytes and on any buffer in which
/// no ECH parameter contributes an entry.
pub fn parse_ech_config(raw_data: &[u8]) -> (r: Option<Vec<EchConfigEntry>>)
    ensures
        match r {
            Some(v) => parse_ech_model(raw_data@) == Some(entries_view(v@)),
            None => parse_ech_model(raw_data@) is None,
        },
        raw_data@.len() < 3 ==> r is None,
{
    let ech_configs = match extract_ech_from_svcb(raw_data) {
        Some(v) => v,
        None => {
            return None;
        },
    };
    if ech_configs.len() == 0 {
        return None;
    }
    Some(ech_configs)
}

/// Extract ECH config entries from the SVCB/HTTPS record wire format.
pub fn extract_ech_from_svcb(data: &[u8]) -> (r: Option<Vec<EchConfigEntry>>)
    ensures
        match r {
            Some(v) => entries_view(v@) == svcb_ech_entries(data@) && v@.len() > 0,
            None => svcb_ech_entries(data@).len() == 0,
        },
{
    // SVCB/HTTPS record format:
    // - Priority (2 bytes)
    // - Target name (variable, DNS name format)
    // - SvcParams (variable)
    if data.len() < 3 {
        return None;
    }

    // Skip the priority, then the target name.
    let mut pos: usize = 2;
    loop
        invariant_except_break
            data@.len() >= 3,
            pos <= data@.len(),
            name_end(data@, 2) == name_end(data@, pos as int),
        ensures
            pos <= data@.len(),
            pos as int == name_end(data@, 2),
        decreases data@.len() - pos,
    {
        if pos >= data.len() {
            proof {
                assert(name_end(data@, pos as int) == data@.len());
            }
            break;
        }
        let label_len = data[pos];
        if label_len == 0 {
            proof {
                assert(name_end(data@, pos as int) == pos + 1);
            }
            pos = pos + 1;
            break;
        }
        if label_len as usize >= data.len() - pos {
            proof {
                assert(pos + 1 + data@[pos as int] > data@.len());
                assert(name_end(data@, pos as int) == data@.len());
            }
            pos = data.len();
            break;
        }
        pos = pos + 1 + label_len as usize;
    }

    let ghost start = pos as int;
    let mut ech_configs: Vec<EchConfigEntry> = Vec::new();

    // Walk the SvcParam records.
    loop
        invariant_except_break
            pos <= data@.len(),
            entries_view(ech_configs@) + params_entries(data@, pos as int)
                =~= params_entries(data@, start),
        ensures
            entries_view(ech_configs@) =~= params_entries(data@, start),
        decreases data@.len() - pos,
    {
        if data.len() - pos < 4 {
            proof {
                assert(params_entries(data@, pos as int) =~= Seq::empty());
                assert(entries_view(ech_configs@) + Seq::<EchEntryModel>::empty()
                    =~= entries_view(ech_configs@));
            }
            break;
        }
        let param_key = read_be16(data[pos], data[pos + 1]);
        let param_len = read_be16(data[pos + 2], data[pos + 3]) as usize;
        let vstart = pos + 4;

        if param_len > data.len() - vstart {
            proof {
                assert(params_entries(data@, pos as int) =~= Seq::empty());
                assert(entries_view(ech_configs@) + Seq::<EchEntryModel>::empty()
                    =~= entries_view(ech_configs@));
            }
            break;
        }

        if param_key == ECH_PARAM_KEY {
            // Found an ECH parameter.
            let ech_data = slice_subrange(data, vstart, vstart + param_len);
            if let Some(mut config_info) = parse_ech_config_list(ech_data) {
                proof {
                    assert(entries_view(ech_configs@ + config_info@)
                        =~= entries_view(ech_configs@) + entries_view(config_info@));
                }
                ech_configs.append(&mut config_info);
            }
        }

        pos = vstart + param_len;
    }

    proof {
        assert(entries_view(ech_configs@).len() == ech_configs@.len());
        assert(svcb_ech_entries(data@) == params_entries(data@, start));
    }
    if ech_configs.len() == 0 {
        None
    } else {
        Some(ech_configs)
    }
}

/// Parse an ECHConfigList value.
///
/// A value whose declared list length exceeds the bytes available, and a
/// value that declared a nonzero length but out of which no config could be
/// decoded, yield a single raw base64 fallback entry; a value with a declared
/// length of zero contributes no entries, and only a value too short for the
/// length field itself yields none.
pub fn parse_ech_config_list(data: &[u8]) -> (r: Option<Vec<EchConfigEntry>>)
    ensures
        match r {
            Some(v) => list_entries(data@) == Some(entries_view(v@)),
            None => list_entries(data@) is None,
        },
{
    if data.len() < 2 {
        return None;
    }

    // ECHConfigList length (2 bytes).
    let list_len = read_be16(data[0], data[1]) as usize;

    if data.len() < 2 + list_len {
        // The structure cannot be parsed as a list: fall back to the raw
        // bytes, base64-encoded.
        let mut configs: Vec<EchConfigEntry> = Vec::new();
        configs.push(EchConfigEntry::Raw { base64: encode_base64(data) });
        proof {
            assert(entries_view(configs@)
                =~= seq![EchEntryModel::Raw { base64: base64_of(data@) }]);
        }
        return Some(configs);
    }

    let mut configs: Vec<EchConfigEntry> = Vec::new();
    let mut pos: usize = 2;

    loop
        invariant_except_break
            data@.len() >= 2 + list_len,
            list_len == be16(data@[0], data@[1]),
            2 <= pos <= data@.len(),
            entries_view(configs@) + config_entries(data@, pos as int, list_len as int)
                =~= config_entries(data@, 2, list_len as int),
        ensures
            entries_view(configs@) =~= config_entries(data@, 2, list_len as int),
        decreases data@.len() - pos,
    {
        // ECHConfig structure:
        // - version (2 bytes)
        // - length (2 bytes)
        // - contents (variable)
        if data.len() - pos < 4 || pos >= 2 + list_len {
            proof {
                assert(config_entries(data@, pos as int, list_len as int) =~= Seq::empty());
                assert(entries_view(configs@) + Seq::<EchEntryModel>::empty()
                    =~= entries_view(configs@));
            }
            break;
        }
        let version = read_be16(data[pos], data[pos + 1]);
        let config_len = read_be16(data[pos + 2], data[pos + 3]) as usize;

        if config_len > data.len() - (pos + 4) {
            proof {
                assert(config_entries(data@, pos as int, list_len as int) =~= Seq::empty());
                assert(entries_view(configs@) + Seq::<EchEntryModel>::empty()
                    =~= entries_view(configs@));
            }
            break;
        }

        let config_data = slice_subrange(data, pos, pos + 4 + config_len);
        let base64_config = encode_base64(config_data);
        let contents = slice_subrange(data, pos + 4, pos + 4 + config_len);

        let ghost configs_before = configs@;
        // Try to parse the ECHConfigContents for structured fields.
        match parse_ech_config_contents(version, contents) {
            Some(info) => {
                configs.push(EchConfigEntry::Parsed {
                    version,
                    config_id: info.config_id,
                    kem_id: info.kem_id,
                    public_name: info.public_name,
                    base64: base64_config,
                });
            },
            None => {
                configs.push(EchConfigEntry::Unparsed { version, base64: base64_config });
            },
        }
        proof {
            assert(entries_view(configs@)
                =~= entries_view(configs_before) + seq![configs@.last()@]);
        }

        pos = pos + 4 + config_len;
    }

    if configs.len() == 0 && list_len > 0 {
        let mut fallback: Vec<EchConfigEntry> = Vec::new();
        fallback.push(EchConfigEntry::Raw { base64: encode_base64(data) });
        proof {
            assert(entries_view(fallback@)
                =~= seq![EchEntryModel::Raw { base64: base64_of(data@) }]);
            assert(entries_view(configs@).len() == 0);
        }
        Some(fallback)
    } else {
        proof {
            assert(entries_view(configs@).len() == configs@.len());
        }
        Some(configs)
    }
}

/// Parse ECHConfigContents for detailed info.
///
/// Only the recognized draft versions are parsed; any other version, and any
/// declared length that would overrun the buffer, yields none for this config
/// alone.
pub fn parse_ech_config_contents(version: u16, data: &[u8]) -> (r: Option<EchConfigContents>)
    ensures
        match r {
            Some(c) => contents_model(version, data@) == Some(c@),
            None => contents_model(version, data@) is None,
        },
{
    // Only parse draft versions we understand.
    if version != 0xfe0d && version != 0xfe0e {
        return None;
    }

    if data.len() < 10 {
        return None;
    }

    // config_id (1 byte), kem_id (2 bytes), public_key length (2 bytes).
    let config_id = data[0];
    let kem_id = read_be16(data[1], data[2]);
    let pk_len = read_be16(data[3], data[4]) as usize;

    if pk_len > data.len() - 5 {
        return None;
    }

    // Skip the public key bytes; then the cipher-suites length (2 bytes).
    let p1 = 5 + pk_len;
    if data.len() - p1 < 2 {
        return None;
    }
    let cs_len = read_be16(data[p1], data[p1 + 1]) as usize;

    // Skip the cipher suites; then one byte of maximum_name_length.
    if cs_len >= data.len() - (p1 + 2) {
        return None;
    }
    let p2 = p1 + 2 + cs_len;

    // public_name length (1 byte) and value.
    let p3 = p2 + 1;
    if p3 >= data.len() {
        return None;
    }
    let name_len = data[p3] as usize;
    let p4 = p3 + 1;

    if name_len > data.len() - p4 {
        return None;
    }
    let name_bytes = slice_subrange(data, p4, p4 + name_len);
    let public_name = utf8_lossy(name_bytes);

    Some(EchConfigContents { config_id, kem_id, public_name })
}

/// Whether the SvcParam run starting at `pos` holds a record with the given
/// key whose value fits in the buffer.
pub open spec fn params_have_key(data: Seq<u8>, pos: int, key: u16) -> bool
    decreases data.len() - pos,
{
    if pos < 0 || pos + 4 > data.len() {
        false
    } else {
        let k = be16(data[pos], data[pos + 1]);
        let plen = be16(data[pos + 2], data[pos + 3]) as int;
        if pos + 4 + plen > data.len() {
            false
        } else {
            k == key || params_have_key(data, pos + 4 + plen, key)
        }
    }
}

proof fn lemma_no_key_no_entries(data: Seq<u8>, pos: int)
    requires
        !params_have_key(data, pos, ECH_PARAM_KEY),
    ensures
        params_entries(data, pos).len() == 0,
    decreases data.len() - pos,
{
    if pos < 0 || pos + 4 > data.len() {
    } else {
        let plen = be16(data[pos + 2], data[pos + 3]) as int;
        if pos + 4 + plen > data.len() {
        } else {
            lemma_no_key_no_entries(data, pos + 4 + plen);
        }
    }
}

/// Law: an SVCB record holding no SvcParam of the ECH key yields no entries,
/// so parsing returns none.
pub proof fn lemma_no_ech_param_gives_none(data: Seq<u8>)
    requires
        !params_have_key(data, name_end(data, 2), ECH_PARAM_KEY),
    ensures
        parse_ech_model(data) is None,
{
    if data.len() < 3 {
    } else {
        lemma_no_key_no_entries(data, name_end(data, 2));
    }
}

/// Law: a buffer shorter than 3 bytes yields none.
pub proof fn lemma_short_buffer_gives_none(data: Seq<u8>)
    requires
        data.len() < 3,
    ensures
        parse_ech_model(data) is None,
{
}

/// Law: an ECHConfigList value whose declared length exceeds the bytes
/// available yields exactly one raw fallback entry holding the base64
/// encoding of the whole value.
pub proof fn lemma_truncated_list_raw_fallback(value: Seq<u8>)
    requires
        value.len() >= 2,
        value.len() < 2 + be16(value[0], value[1]),
    ensures
        list_entries(value) == Some(seq![EchEntryModel::Raw { base64: base64_of(value) }]),
{
}

/// Law: an ECHConfigList value that declares a length of zero contributes no
/// entries at all: the raw fallback for a list out of which nothing decoded
/// is confined to nonzero declared lengths.
pub proof fn lemma_zero_length_list_no_entries(value: Seq<u8>)
    requires
        value.len() >= 2,
        be16(value[0], value[1]) == 0,
    ensures
        list_entries(value) == Some(Seq::<EchEntryModel>::empty()),
{
    assert(config_entries(value, 2, 0) =~= Seq::empty());
}

} // verus!
