//! The message-framing and checksum engine.
//!
//! A [`FitFile`] turns a fixed 14-byte file header, a sequence of
//! schema-declaration (definition) records and a sequence of raw-byte data
//! records into a byte-exact output stream inside a fixed-capacity buffer,
//! then retro-patches the total-size field and appends a CRC-16 trailer
//! once the stream is complete.
//!
//! The byte layout of every record is pinned down by the spec functions in
//! this module ([`header_bytes`], [`definition_record_bytes`],
//! [`data_record_bytes`], [`finalized_stream`]); each public method's
//! contract states exactly which bytes it appends and on which inputs it
//! fails.

use vstd::prelude::*;

use crate::profile::field_def_bytes;
use crate::profile::FitFieldDefinition;
use crate::profile::FitFileIdFieldDefinition;
use crate::sink::BoundedByteSink;
use crate::types::FitFileManufacturerType;
use crate::types::FitFileType;
use crate::types::FitGlobalMessageType;

verus! {

/// Error raised by any mutating operation whose write would exceed the
/// capacity fixed at construction.  The payload carries no information and
/// is always zero.
#[derive(Debug, PartialEq, Eq, Structural)]
pub enum FitError {
    Failed(u8),
}

/// Kind of a record: a schema declaration or raw field bytes.
#[derive(Debug)]
enum FitMessageType {
    DataMessage,
    DefinitionMessage,
}

impl FitMessageType {
    /// Record-header byte: bit 6 set marks a Definition Message.
    spec fn spec_record_byte(&self) -> u8 {
        match self {
            FitMessageType::DataMessage => 0x00,
            FitMessageType::DefinitionMessage => 0x40,
        }
    }

    fn record_byte(&self) -> (b: u8)
        ensures
            b == self.spec_record_byte(),
    {
        match self {
            Self::DataMessage => 0x00,
            Self::DefinitionMessage => 0x40,
        }
    }
}

/// Byte order of multi-byte values inside records.  Only the `LSB`
/// (little-endian) encoding path is implemented; the engine never selects
/// `MSB`.
#[derive(Debug, Clone, Copy, PartialEq, Eq, Structural)]
pub enum FitMessageArchitecture {
    LSB,
    MSB,
}

impl FitMessageArchitecture {
    /// Architecture byte of a definition record.
    pub open spec fn spec_code(&self) -> u8 {
        match self {
            FitMessageArchitecture::LSB => 0,
            FitMessageArchitecture::MSB => 1,
        }
    }

    /// Architecture byte of a definition record.
    pub fn code(&self) -> (c: u8)
        ensures
            c == self.spec_code(),
    {
        match self {
            Self::LSB => 0,
            Self::MSB => 1,
        }
    }
}

/// Major protocol version of the file.
pub enum FitProtocolVersion {
    Version1,
    Version2,
}

impl FitProtocolVersion {
    /// Protocol-version byte of the file header: the major version in the
    /// high nibble.
    pub open spec fn spec_header_byte(&self) -> u8 {
        match self {
            FitProtocolVersion::Version1 => 0x10,
            FitProtocolVersion::Version2 => 0x20,
        }
    }

    /// Protocol-version byte of the file header.
    pub fn header_byte(&self) -> (b: u8)
        ensures
            b == self.spec_header_byte(),
    {
        match self {
            Self::Version1 => 0x10,
            Self::Version2 => 0x20,
        }
    }
}

/// Little-endian bytes of a 16-bit value.
pub open spec fn u16_le(x: u16) -> Seq<u8> {
    seq![(x & 0xff) as u8, ((x >> 8) & 0xff) as u8]
}

/// Little-endian bytes of a 32-bit value.
pub open spec fn u32_le(x: u32) -> Seq<u8> {
    seq![
        (x & 0xff) as u8,
        ((x >> 8) & 0xff) as u8,
        ((x >> 16) & 0xff) as u8,
        ((x >> 24) & 0xff) as u8,
    ]
}

/// The 10 header bytes present before finalization: header size, protocol
/// version, profile version (little-endian), the `.FIT` tag and a zeroed
/// checksum placeholder.  The 4-byte data-size field is inserted at offset
/// 4 by `done()`, not written here.
pub open spec fn header_bytes(protocol: FitProtocolVersion, profile: u16) -> Seq<u8> {
    seq![14u8, protocol.spec_header_byte()] + u16_le(profile) + seq![
        0x2Eu8,
        0x46u8,
        0x49u8,
        0x54u8,
        0u8,
        0u8,
    ]
}

/// Wire triples of a field-definition list, three bytes per field, in
/// order.
pub open spec fn field_defs_bytes<T: FitFieldDefinition>(fields: Seq<T>) -> Seq<u8>
    decreases fields.len(),
{
    if fields.len() == 0 {
        Seq::<u8>::empty()
    } else {
        field_defs_bytes(fields.drop_last()) + field_def_bytes(
            fields.last().spec_field_number(),
            fields.last().spec_base_type(),
        )
    }
}

/// Body of a definition record, after its record-header byte: a reserved
/// zero, the architecture byte, the global message number (little-endian),
/// the field count and the field triples.
pub open spec fn definition_content_bytes<T: FitFieldDefinition>(
    arch: u8,
    gnum: u16,
    fields: Seq<T>,
) -> Seq<u8>
    recommends
        fields.len() <= 255,
{
    seq![0u8, arch] + u16_le(gnum) + seq![fields.len() as u8] + field_defs_bytes(fields)
}

/// A whole definition record: record-header byte (bit 6 set) followed by
/// the definition content.
pub open spec fn definition_record_bytes<T: FitFieldDefinition>(
    arch: u8,
    gnum: u16,
    fields: Seq<T>,
) -> Seq<u8>
    recommends
        fields.len() <= 255,
{
    seq![0x40u8] + definition_content_bytes(arch, gnum, fields)
}

/// A whole data record: record-header byte (bit 6 clear) followed by the
/// raw field bytes.
pub open spec fn data_record_bytes(data: Seq<u8>) -> Seq<u8> {
    seq![0u8] + data
}

/// The field list of the mandatory File-Id message.
pub open spec fn file_id_fields() -> Seq<FitFileIdFieldDefinition> {
    seq![
        FitFileIdFieldDefinition::Type,
        FitFileIdFieldDefinition::Manufacturer,
        FitFileIdFieldDefinition::TimeCreated,
    ]
}

/// Payload of the File-Id data record: file type, manufacturer
/// (little-endian) and creation timestamp (little-endian).
pub open spec fn file_id_payload(file_type: FitFileType, manufacturer: u16, ts: u32) -> Seq<u8> {
    seq![file_type.spec_code()] + u16_le(manufacturer) + u32_le(ts)
}

/// The whole stream written by construction: header, File-Id definition
/// record and File-Id data record — 33 bytes.
pub open spec fn initial_stream(
    protocol: FitProtocolVersion,
    profile: u16,
    file_type: FitFileType,
    ts: u32,
) -> Seq<u8> {
    header_bytes(protocol, profile) + definition_record_bytes(
        FitMessageArchitecture::LSB.spec_code(),
        FitGlobalMessageType::FileId.spec_code(),
        file_id_fields(),
    ) + data_record_bytes(
        file_id_payload(file_type, FitFileManufacturerType::Development.spec_code(), ts),
    )
}

/// Value of the retro-patched data-size field: the stream length minus the
/// 10 header bytes, truncated to 32 bits.
pub open spec fn size_value(len: nat) -> u32 {
    ((len - 10) % 0x1_0000_0000) as u32
}

/// The stream with the 4-byte data-size field inserted at offset 4
/// (little-endian).
pub open spec fn patched_stream(s: Seq<u8>) -> Seq<u8>
    recommends
        10 <= s.len(),
{
    s.take(4) + u32_le(size_value(s.len())) + s.skip(4)
}

/// The finished stream: the patched stream followed by its CRC-16 as two
/// little-endian trailer bytes.
pub open spec fn finalized_stream(s: Seq<u8>) -> Seq<u8>
    recommends
        10 <= s.len(),
{
    patched_stream(s) + u16_le(crc16_of(patched_stream(s)))
}

/// The 16-entry nibble lookup table of the format's CRC-16 variant.
pub open spec fn crc_table_entry(i: int) -> u16 {
    if i == 0 {
        0x0000
    } else if i == 1 {
        0xCC01
    } else if i == 2 {
        0xD801
    } else if i == 3 {
        0x1400
    } else if i == 4 {
        0xF001
    } else if i == 5 {
        0x3C00
    } else if i == 6 {
        0x2800
    } else if i == 7 {
        0xE401
    } else if i == 8 {
        0xA001
    } else if i == 9 {
        0x6C00
    } else if i == 10 {
        0x7800
    } else if i == 11 {
        0xB401
    } else if i == 12 {
        0x5000
    } else if i == 13 {
        0x9C01
    } else if i == 14 {
        0x8801
    } else {
        0x4400
    }
}

fn crc_table_lookup(i: usize) -> (e: u16)
    requires
        i < 16,
    ensures
        e == crc_table_entry(i as int),
{
    match i {
        0 => 0x0000,
        1 => 0xCC01,
        2 => 0xD801,
        3 => 0x1400,
        4 => 0xF001,
        5 => 0x3C00,
        6 => 0x2800,
        7 => 0xE401,
        8 => 0xA001,
        9 => 0x6C00,
        10 => 0x7800,
        11 => 0xB401,
        12 => 0x5000,
        13 => 0x9C01,
        14 => 0x8801,
        _ => 0x4400,
    }
}

/// One step of the CRC-16: folds `byte` into the running `crc`, low nibble
/// first, shifting the crc right 4 bits and masking to 12 bits between
/// folds.
pub open spec fn crc_step(crc: u16, byte: u8) -> u16 {
    let t1 = crc_table_entry((crc & 0xF) as int);
    let c1 = (((crc >> 4) & 0x0FFF) ^ t1) ^ crc_table_entry((byte & 0xF) as int);
    let t2 = crc_table_entry((c1 & 0xF) as int);
    (((c1 >> 4) & 0x0FFF) ^ t2) ^ crc_table_entry(((byte >> 4) & 0xF) as int)
}

/// The CRC-16 of a byte sequence, folded left to right from 0.
pub open spec fn crc16_of(s: Seq<u8>) -> u16
    decreases s.len(),
{
    if s.len() == 0 {
        0u16
    } else {
        crc_step(crc16_of(s.drop_last()), s.last())
    }
}

/// One step of the CRC-16 computation.
pub fn crc_get16(crc: u16, byte: u8) -> (r: u16)
    ensures
        r == crc_step(crc, byte),
{
    assert((crc & 0xF) < 16) by (bit_vector);
    assert((byte & 0xF) < 16) by (bit_vector);
    let tmp = crc_table_lookup((crc & 0xF) as usize);
    let mut c = (crc >> 4) & 0x0FFF;
    c = (c ^ tmp) ^ crc_table_lookup((byte & 0xF) as usize);
    assert((c & 0xF) < 16) by (bit_vector);
    assert(((byte >> 4) & 0xF) < 16) by (bit_vector);
    let tmp = crc_table_lookup((c & 0xF) as usize);
    c = (c >> 4) & 0x0FFF;
    (c ^ tmp) ^ crc_table_lookup(((byte >> 4) & 0xF) as usize)
}

/// The CRC-16 of `data`.
pub fn crc16(data: &[u8]) -> (crc: u16)
    ensures
        crc == crc16_of(data@),
{
    let mut crc: u16 = 0;
    let mut i: usize = 0;
    while i < data.len()
        invariant
            i <= data@.len(),
            crc == crc16_of(data@.take(i as int)),
        decreases data@.len() - i,
    {
        crc = crc_get16(crc, data[i]);
        proof {
            assert(data@.take(i + 1).drop_last() =~= data@.take(i as int));
            assert(data@.take(i + 1).last() == data@[i as int]);
        }
        i = i + 1;
    }
    assert(data@.take(data@.len() as int) =~= data@);
    crc
}

/// An in-progress FIT file: a bounded byte stream holding the header and
/// every record emitted so far.  The capacity `N` is fixed at construction
/// and never exceeded.
#[derive(Debug, PartialEq)]
pub struct FitFile<const N: usize> {
    stream: BoundedByteSink<N>,
    arch: FitMessageArchitecture,
    manufacturer: FitFileManufacturerType,
}

impl<const N: usize> View for FitFile<N> {
    type V = Seq<u8>;

    closed spec fn view(&self) -> Seq<u8> {
        self.stream@
    }
}

impl<const N: usize> FitFile<N> {
    /// Validity: the stream respects the capacity and holds at least the
    /// 10 header bytes; the engine only ever encodes little-endian
    /// payloads for the development manufacturer.
    pub closed spec fn wf(&self) -> bool {
        &&& self.stream.wf()
        &&& 10 <= self@.len()
        &&& self.arch is LSB
        &&& self.manufacturer is Development
    }

    /// Appends all of `bytes` or nothing, mapping a capacity failure to
    /// the error byte 0.
    fn emit(&mut self, bytes: &[u8]) -> (r: Result<(), u8>)
        requires
            old(self).stream.wf(),
        ensures
            final(self).stream.wf(),
            final(self).arch == old(self).arch,
            final(self).manufacturer == old(self).manufacturer,
            if old(self)@.len() + bytes@.len() <= N {
                r is Ok && final(self)@ == old(self)@ + bytes@
            } else {
                r matches Err(e) && e == 0 && final(self)@ == old(self)@
            },
    {
        match self.stream.append(bytes) {
            Ok(()) => Ok(()),
            Err(_) => Err(0),
        }
    }

    /// Writes the record-header byte of a record of kind `msg_type`.
    fn build_record_header(&mut self, msg_type: FitMessageType) -> (r: Result<(), u8>)
        requires
            old(self).stream.wf(),
        ensures
            final(self).stream.wf(),
            final(self).arch == old(self).arch,
            final(self).manufacturer == old(self).manufacturer,
            if old(self)@.len() + 1 <= N {
                r is Ok && final(self)@ == old(self)@ + seq![msg_type.spec_record_byte()]
            } else {
                r matches Err(e) && e == 0 && final(self)@ == old(self)@
            },
    {
        self.emit(&[msg_type.record_byte()])
    }

    /// Writes the 10 header bytes into the empty stream.
    fn build_header(&mut self, protocol: &FitProtocolVersion, profile: u16) -> (r: Result<(), u8>)
        requires
            old(self).stream.wf(),
            old(self)@.len() == 0,
        ensures
            final(self).stream.wf(),
            final(self).arch == old(self).arch,
            final(self).manufacturer == old(self).manufacturer,
            if 10 <= N {
                r is Ok && final(self)@ == header_bytes(*protocol, profile)
            } else {
                r matches Err(e) && e == 0 && final(self)@ == old(self)@
            },
    {
        let header: [u8; 10] = [
            14,
            protocol.header_byte(),
            (profile & 0xff) as u8,
            ((profile >> 8) & 0xff) as u8,
            0x2E,
            0x46,
            0x49,
            0x54,
            0,
            0,
        ];
        assert(header@ =~= header_bytes(*protocol, profile));
        self.emit(header.as_slice())
    }

    /// Writes one wire triple of a field definition.
    fn build_field_definition_content<T: FitFieldDefinition>(&mut self, field: &T) -> (r: Result<
        (),
        u8,
    >)
        requires
            old(self).stream.wf(),
        ensures
            final(self).stream.wf(),
            final(self).arch == old(self).arch,
            final(self).manufacturer == old(self).manufacturer,
            if old(self)@.len() + 3 <= N {
                r is Ok && final(self)@ == old(self)@ + field_def_bytes(
                    field.spec_field_number(),
                    field.spec_base_type(),
                )
            } else {
                r matches Err(e) && e == 0 && final(self)@ == old(self)@
            },
    {
        let triple = field.get();
        self.emit(triple.as_slice())
    }

    /// Writes the body of a definition record: reserved byte, architecture
    /// byte, global message number, field count, field triples.  Writes all
    /// of it or nothing.
    fn build_message_definition_content<T: FitFieldDefinition>(
        &mut self,
        gmsg_num: FitGlobalMessageType,
        fields_def: &[T],
    ) -> (r: Result<(), u8>)
        requires
            old(self).stream.wf(),
            fields_def@.len() <= 255,
        ensures
            final(self).stream.wf(),
            final(self).arch == old(self).arch,
            final(self).manufacturer == old(self).manufacturer,
            if old(self)@.len() + 5 + 3 * fields_def@.len() <= N {
                r is Ok && final(self)@ == old(self)@ + definition_content_bytes(
                    old(self).arch.spec_code(),
                    gmsg_num.spec_code(),
                    fields_def@,
                )
            } else {
                r matches Err(e) && e == 0 && final(self)@ == old(self)@
            },
    {
        let flen = fields_def.len();
        if 5 + 3 * flen > N - self.stream.length() {
            return Err(0);
        }
        let ghost start = self@;
        let arch_byte = self.arch.code();
        let gnum = gmsg_num.code();
        let glo = (gnum & 0xff) as u8;
        let ghi = ((gnum >> 8) & 0xff) as u8;
        let count = flen as u8;
        self.emit(&[0, arch_byte, glo, ghi, count])?;
        let ghost prefix = start + seq![0u8, arch_byte, glo, ghi, count];
        assert(self@ =~= prefix);
        let mut i: usize = 0;
        while i < flen
            invariant
                i <= flen,
                flen == fields_def@.len() <= 255,
                self.stream.wf(),
                self.arch == old(self).arch,
                self.manufacturer == old(self).manufacturer,
                self@ == prefix + field_defs_bytes(fields_def@.take(i as int)),
                self@.len() == prefix.len() + 3 * i,
                prefix.len() + 3 * flen <= N,
            decreases flen - i,
        {
            proof {
                lemma_field_defs_bytes_len(fields_def@.take(i as int));
            }
            let r = self.build_field_definition_content(vstd::slice::slice_index_get(
                fields_def,
                i,
            ));
            match r {
                Ok(()) => (),
                Err(e) => {
                    return Err(e);  // unreachable: the upfront check reserved the space
                },
            }
            proof {
                assert(fields_def@.take(i + 1).drop_last() =~= fields_def@.take(i as int));
                assert(fields_def@.take(i + 1).last() == fields_def@[i as int]);
                assert(self@ =~= prefix + field_defs_bytes(fields_def@.take(i + 1)));
                lemma_field_defs_bytes_len(fields_def@.take(i + 1));
            }
            i = i + 1;
        }
        proof {
            assert(fields_def@.take(flen as int) =~= fields_def@);
            assert(self@ =~= start + definition_content_bytes(
                old(self).arch.spec_code(),
                gmsg_num.spec_code(),
                fields_def@,
            ));
        }
        Ok(())
    }

    /// Emits the mandatory File-Id message: its definition record followed
    /// by its 7-byte data record (file type, manufacturer, creation
    /// timestamp).
    fn build_file_id(&mut self, file_type: FitFileType, ts: u32) -> (r: Result<(), u8>)
        requires
            old(self).wf(),
            old(self)@.len() + 23 <= N,
        ensures
            final(self).wf(),
            final(self).arch == old(self).arch,
            final(self).manufacturer == old(self).manufacturer,
            r is Ok,
            final(self)@ == old(self)@ + definition_record_bytes(
                old(self).arch.spec_code(),
                FitGlobalMessageType::FileId.spec_code(),
                file_id_fields(),
            ) + data_record_bytes(
                file_id_payload(file_type, old(self).manufacturer.spec_code(), ts),
            ),
    {
        let ghost start = self@;
        let fields = [
            FitFileIdFieldDefinition::Type,
            FitFileIdFieldDefinition::Manufacturer,
            FitFileIdFieldDefinition::TimeCreated,
        ];
        proof {
            assert(fields@ =~= file_id_fields());
            lemma_field_defs_bytes_len(file_id_fields());
        }
        self.define(FitGlobalMessageType::FileId, fields.as_slice())?;
        let m = self.manufacturer.code();
        let payload: [u8; 7] = [
            file_type.code(),
            (m & 0xff) as u8,
            ((m >> 8) & 0xff) as u8,
            (ts & 0xff) as u8,
            ((ts >> 8) & 0xff) as u8,
            ((ts >> 16) & 0xff) as u8,
            ((ts >> 24) & 0xff) as u8,
        ];
        proof {
            assert(payload@ =~= file_id_payload(
                file_type,
                old(self).manufacturer.spec_code(),
                ts,
            ));
        }
        self.push(payload.as_slice())?;
        Ok(())
    }

    /// Creates a file of capacity `N`: writes the header and the mandatory
    /// File-Id message.  Fails exactly when the 33 bytes of header and
    /// File-Id message do not fit in `N`.
    pub fn new(
        protocol: FitProtocolVersion,
        profile_major: u16,
        profile_minor: u16,
        file_type: FitFileType,
        ts: u32,
    ) -> (r: Result<Self, FitError>)
        requires
            profile_major * 1000 + profile_minor <= u16::MAX,
        ensures
            if 33 <= N {
                r matches Ok(f) && f.wf() && f@ == initial_stream(
                    protocol,
                    (profile_major * 1000 + profile_minor) as u16,
                    file_type,
                    ts,
                ) && f@.len() == 33
            } else {
                r matches Err(e) && e == FitError::Failed(0)
            },
    {
        if N < 33 {
            return Err(FitError::Failed(0));
        }
        let profile: u16 = profile_major * 1000 + profile_minor;
        let mut fit_file = FitFile {
            stream: BoundedByteSink::new(),
            arch: FitMessageArchitecture::LSB,
            manufacturer: FitFileManufacturerType::Development,
        };
        match fit_file.build_header(&protocol, profile) {
            Ok(()) => (),
            Err(e) => {
                return Err(FitError::Failed(e));
            },
        }
        proof {
            assert(header_bytes(protocol, profile).len() == 10);
        }
        match fit_file.build_file_id(file_type, ts) {
            Ok(()) => (),
            Err(e) => {
                return Err(FitError::Failed(e));
            },
        }
        proof {
            lemma_field_defs_bytes_len(file_id_fields());
            assert(fit_file@ =~= initial_stream(protocol, profile, file_type, ts));
        }
        Ok(fit_file)
    }

    /// Emits a definition record declaring the schema of `global_msg_num`
    /// from the given field list.  Fails, leaving the stream unchanged,
    /// exactly when the list holds more than 255 fields or the record does
    /// not fit in the remaining capacity.
    pub fn define<T: FitFieldDefinition>(
        &mut self,
        global_msg_num: FitGlobalMessageType,
        fields_def: &[T],
    ) -> (r: Result<(), u8>)
        requires
            old(self).wf(),
        ensures
            final(self).wf(),
            if fields_def@.len() <= 255 && old(self)@.len() + 6 + 3 * fields_def@.len() <= N {
                r is Ok && final(self)@ == old(self)@ + definition_record_bytes(
                    FitMessageArchitecture::LSB.spec_code(),
                    global_msg_num.spec_code(),
                    fields_def@,
                )
            } else {
                r matches Err(e) && e == 0 && final(self)@ == old(self)@
            },
    {
        let flen = fields_def.len();
        if flen > 255 {
            return Err(0);
        }
        if 6 + 3 * flen > N - self.stream.length() {
            return Err(0);
        }
        let ghost start = self@;
        self.build_record_header(FitMessageType::DefinitionMessage)?;
        match self.build_message_definition_content(global_msg_num, fields_def) {
            Ok(()) => (),
            Err(e) => {
                return Err(e);  // unreachable: the upfront check reserved the space
            },
        }
        proof {
            assert(self@ =~= start + definition_record_bytes(
                FitMessageArchitecture::LSB.spec_code(),
                global_msg_num.spec_code(),
                fields_def@,
            ));
        }
        Ok(())
    }

    /// Emits a data record carrying `data` verbatim, as laid out by a
    /// previously emitted definition record.  No check is made that the
    /// length matches the declared schema — that is the caller's contract.
    /// Fails, leaving the stream unchanged, exactly when the record does
    /// not fit in the remaining capacity.
    pub fn push(&mut self, data: &[u8]) -> (r: Result<(), u8>)
        requires
            old(self).wf(),
        ensures
            final(self).wf(),
            if old(self)@.len() + 1 + data@.len() <= N {
                r is Ok && final(self)@ == old(self)@ + data_record_bytes(data@)
            } else {
                r matches Err(e) && e == 0 && final(self)@ == old(self)@
            },
    {
        let avail = N - self.stream.length();
        if avail < 1 {
            return Err(0);
        }
        if data.len() > avail - 1 {
            return Err(0);
        }
        let ghost start = self@;
        self.build_record_header(FitMessageType::DataMessage)?;
        match self.emit(data) {
            Ok(()) => (),
            Err(e) => {
                return Err(e);  // unreachable: the upfront check reserved the space
            },
        }
        proof {
            assert(self@ =~= start + data_record_bytes(data@));
        }
        Ok(())
    }

    /// Finalizes the stream: inserts the 4-byte data-size field at offset
    /// 4 (little-endian), appends the CRC-16 of everything before it and
    /// returns the finished bytes.  Finalizing is terminal: a second call
    /// patches the already patched stream and yields a different size
    /// field and checksum.
    pub fn done(&mut self) -> (r: Result<&[u8], FitError>)
        requires
            old(self).wf(),
        ensures
            final(self).wf(),
            if old(self)@.len() + 6 <= N {
                r matches Ok(bytes) && bytes@ == finalized_stream(old(self)@) && final(self)@
                    == finalized_stream(old(self)@)
            } else {
                r matches Err(e) && e == FitError::Failed(0) && final(self)@ == old(self)@
            },
    {
        let len = self.stream.length();
        if N - len < 6 {
            return Err(FitError::Failed(0));
        }
        let size64: u64 = len as u64 - 10;
        let size32: u32 = (size64 % 0x1_0000_0000) as u32;
        proof {
            assert(size32 == size_value(old(self)@.len()));
        }
        let b0 = (size32 & 0xff) as u8;
        let b1 = ((size32 >> 8) & 0xff) as u8;
        let b2 = ((size32 >> 16) & 0xff) as u8;
        let b3 = ((size32 >> 24) & 0xff) as u8;
        let ghost start = self@;
        // Inserted most-significant byte first, each at offset 4, so the
        // field reads little-endian at offsets 4..8.
        match self.stream.insert_at(4, b3) {
            Ok(()) => (),
            Err(_) => {
                return Err(FitError::Failed(0));  // unreachable: 6 bytes were reserved
            },
        }
        match self.stream.insert_at(4, b2) {
            Ok(()) => (),
            Err(_) => {
                return Err(FitError::Failed(0));
            },
        }
        match self.stream.insert_at(4, b1) {
            Ok(()) => (),
            Err(_) => {
                return Err(FitError::Failed(0));
            },
        }
        match self.stream.insert_at(4, b0) {
            Ok(()) => (),
            Err(_) => {
                return Err(FitError::Failed(0));
            },
        }
        proof {
            assert(self@ =~= patched_stream(start));
        }
        let crc = crc16(self.stream.as_slice());
        let trailer: [u8; 2] = [(crc & 0xff) as u8, ((crc >> 8) & 0xff) as u8];
        proof {
            assert(trailer@ =~= u16_le(crc));
        }
        match self.stream.append(trailer.as_slice()) {
            Ok(()) => (),
            Err(_) => {
                return Err(FitError::Failed(0));
            },
        }
        proof {
            assert(self@ =~= finalized_stream(start));
        }
        Ok(self.stream.as_slice())
    }

    /// Number of bytes written so far.
    pub fn size(&mut self) -> (n: usize)
        ensures
            n == old(self)@.len(),
            *final(self) == *old(self),
    {
        self.stream.length()
    }
}

/// The wire triples of a field list take three bytes per field.
pub proof fn lemma_field_defs_bytes_len<T: FitFieldDefinition>(fields: Seq<T>)
    ensures
        field_defs_bytes(fields).len() == 3 * fields.len(),
    decreases fields.len(),
{
    if fields.len() > 0 {
        lemma_field_defs_bytes_len(fields.drop_last());
    }
}

/// Byte-sum of the declared field sizes of a field-definition list: the
/// payload length that a matching data record must carry.
pub open spec fn field_sizes_sum<T: FitFieldDefinition>(fields: Seq<T>) -> nat
    decreases fields.len(),
{
    if fields.len() == 0 {
        0
    } else {
        (field_sizes_sum(fields.drop_last()) + fields.last().spec_base_type().spec_size()) as nat
    }
}

/// Framing growth law: a definition record for `fields` followed by a data
/// record whose payload is exactly the byte-sum of the declared field
/// sizes grows the stream by
/// `1 (record header) + 2 (reserved + architecture) + 2 (message number) +
/// 1 (field count) + 3·len + 1 (data record header) + sum(sizes)` bytes.
/// Together with the contracts of `define` and `push` — which succeed
/// exactly when these bytes fit in the remaining capacity — this pins the
/// length of every define/push round.
pub proof fn lemma_define_push_growth<T: FitFieldDefinition>(
    s: Seq<u8>,
    arch: u8,
    gnum: u16,
    fields: Seq<T>,
    data: Seq<u8>,
)
    requires
        fields.len() <= 255,
        data.len() == field_sizes_sum(fields),
    ensures
        (s + definition_record_bytes(arch, gnum, fields) + data_record_bytes(data)).len() == s.len()
            + 1 + 2 + 2 + 1 + 3 * fields.len() + 1 + field_sizes_sum(fields),
{
    lemma_field_defs_bytes_len(fields);
}

/// Checksum round-trip law: a finished stream is 6 bytes longer than the
/// stream it was made from, and its last two bytes are exactly the
/// little-endian CRC-16 of everything before them.
pub proof fn lemma_checksum_round_trip(s: Seq<u8>)
    requires
        10 <= s.len(),
    ensures
        finalized_stream(s).len() == s.len() + 6,
        finalized_stream(s).subrange(0, finalized_stream(s).len() - 2) == patched_stream(s),
        finalized_stream(s).subrange(
            finalized_stream(s).len() - 2,
            finalized_stream(s).len() as int,
        ) == u16_le(crc16_of(finalized_stream(s).subrange(0, finalized_stream(s).len() - 2))),
{
    let p = patched_stream(s);
    let out = finalized_stream(s);
    assert(p.len() == s.len() + 4);
    assert(out.subrange(0, p.len() as int) =~= p);
    assert(out.subrange(p.len() as int, out.len() as int) =~= u16_le(crc16_of(p)));
}

/// Finalizing is not idempotent: finalizing an already finished stream
/// patches a second size field in, so the bytes at offsets 4..8 of the
/// twice-finalized stream differ from those of the once-finalized stream.
/// A second finalization therefore computes its trailing checksum over
/// different contents; a caller must treat a repeated `done` as an error.
pub proof fn lemma_refinalize_changes_size_field(s: Seq<u8>)
    requires
        10 <= s.len(),
    ensures
        finalized_stream(finalized_stream(s)).subrange(4, 8) != finalized_stream(s).subrange(4, 8),
{
    let once = finalized_stream(s);
    let twice = finalized_stream(once);
    assert(once.len() == s.len() + 6);
    let a = size_value(s.len());
    let b = size_value(once.len());
    assert(once.subrange(4, 8) =~= u32_le(a));
    assert(twice.subrange(4, 8) =~= u32_le(b));
    assert(a != b) by {
        lemma_size_value_shift(s.len());
    }
    lemma_u32_le_injective(a, b);
}

/// Two streams whose lengths differ by 6 have different size-field
/// values: 6 is never a multiple of 2^32.
proof fn lemma_size_value_shift(len: nat)
    ensures
        size_value(len) != size_value((len + 6) as nat),
{
    let m = 0x1_0000_0000int;
    let x = len - 10;
    vstd::arithmetic::div_mod::lemma_fundamental_div_mod(x, m);
    vstd::arithmetic::div_mod::lemma_fundamental_div_mod(x + 6, m);
    vstd::arithmetic::div_mod::lemma_mod_bound(x, m);
    vstd::arithmetic::div_mod::lemma_mod_bound(x + 6, m);
    if x % m == (x + 6) % m {
        let p = x / m;
        let q = (x + 6) / m;
        assert(x == m * p + (x % m));
        assert(x + 6 == m * q + ((x + 6) % m));
        assert(m * q - m * p == 6);
        assert((q - p) * m == 6) by (nonlinear_arith)
            requires
                m * q - m * p == 6,
        ;
        assert(false) by (nonlinear_arith)
            requires
                (q - p) * m == 6,
                m == 0x1_0000_0000,
        ;
    }
}

/// Distinct 32-bit values have distinct little-endian encodings.
proof fn lemma_u32_le_injective(a: u32, b: u32)
    requires
        a != b,
    ensures
        u32_le(a) != u32_le(b),
{
    if u32_le(a) == u32_le(b) {
        assert(u32_le(a)[0] == u32_le(b)[0]);
        assert(u32_le(a)[1] == u32_le(b)[1]);
        assert(u32_le(a)[2] == u32_le(b)[2]);
        assert(u32_le(a)[3] == u32_le(b)[3]);
        assert(false) by (bit_vector)
            requires
                a != b,
                (a & 0xff) as u8 == (b & 0xff) as u8,
                ((a >> 8) & 0xff) as u8 == ((b >> 8) & 0xff) as u8,
                ((a >> 16) & 0xff) as u8 == ((b >> 16) & 0xff) as u8,
                ((a >> 24) & 0xff) as u8 == ((b >> 24) & 0xff) as u8,
        ;
    }
}

} // verus!

