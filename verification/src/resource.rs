//! Version-resource script generation: the version record, its string
//! tables, the user-defined entries, and their exact textual rendering,
//! plus the parsing of a package version into the four-part form.

use vstd::prelude::*;

use crate::Error;
use crate::cargo::CargoManifest;
use crate::textfmt::dec_u32;
use crate::textfmt::hex_fixed;
use crate::textfmt::index_of;
use crate::textfmt::spec_dec;
use crate::textfmt::spec_hex;
use crate::textfmt::spec_index_of;

verus! {

pub const CREATEPROCESS_MANIFEST_RESOURCE_ID: u16 = 1;

pub const RT_MANIFEST: u16 = 24;

pub const VS_VERSION_INFO: u32 = 1;

pub const VS_FF_DEBUG: u32 = 0x01;

pub const VS_FF_PRERELEASE: u32 = 0x02;

pub const VS_FF_PATCHED: u32 = 0x04;

pub const VS_FF_PRIVATEBUILD: u32 = 0x08;

pub const VS_FF_INFOINFERRED: u32 = 0x10;

pub const VS_FF_SPECIALBUILD: u32 = 0x20;

pub const VOS_UNKNOWN: u32 = 0x00000000;

pub const VOS_DOS: u32 = 0x00010000;

pub const VOS_OS216: u32 = 0x00020000;

pub const VOS_OS232: u32 = 0x00030000;

pub const VOS_NT: u32 = 0x00040000;

pub const VOS_WINCE: u32 = 0x00050000;

pub const VFT_UNKNOWN: u32 = 0x00000000;

pub const VFT_APP: u32 = 0x00000001;

pub const VFT_DLL: u32 = 0x00000002;

pub const VFT_DRV: u32 = 0x00000003;

pub const VFT_FONT: u32 = 0x00000004;

pub const VFT_VXD: u32 = 0x00000005;

pub const VFT_STATIC_LIB: u32 = 0x00000007;

pub const VFT2_UNKNOWN: u32 = 0x00000000;

pub const LCID_EN_US_UTF_16: u32 = 0x040904B0;

pub const LCID_EN_US_WINDOWS_1252: u32 = 0x040904E4;

pub type LocaleId = u32;

/// A four-part file version: major, minor, revision, build.
#[derive(Debug, Clone, Copy)]
pub struct Version(pub [u16; 4]);

/// The comma-separated rendering of a four-part version.
pub open spec fn spec_version_text(v: Seq<u16>) -> Seq<char>
    recommends
        v.len() == 4,
{
    spec_dec(v[0] as nat) + ","@ + spec_dec(v[1] as nat) + ","@ + spec_dec(v[2] as nat)
        + ","@ + spec_dec(v[3] as nat)
}

impl Version {
    /// Renders the version as its comma-separated text.
    pub fn to_text(&self) -> (r: String)
        ensures
            r@ == spec_version_text(self.0@),
    {
        let mut r = dec_u32(self.0[0] as u32);
        r.append(",");
        let p1 = dec_u32(self.0[1] as u32);
        r.append(p1.as_str());
        r.append(",");
        let p2 = dec_u32(self.0[2] as u32);
        r.append(p2.as_str());
        r.append(",");
        let p3 = dec_u32(self.0[3] as u32);
        r.append(p3.as_str());
        r
    }
}

/// The names a version string table may carry.
#[derive(Debug, Clone, Copy, PartialEq, Eq, Hash, Structural)]
pub enum FileInfoName {
    Comments,
    CompanyName,
    FileDescription,
    FileVersion,
    InternalName,
    LegalCopyright,
    LegalTrademarks,
    OriginalFilename,
    PrivateBuild,
    ProductName,
    ProductVersion,
    SpecialBuild,
}

/// The script name of a string-table entry.
pub open spec fn spec_name_text(f: FileInfoName) -> Seq<char> {
    match f {
        FileInfoName::Comments => "Comments"@,
        FileInfoName::CompanyName => "CompanyName"@,
        FileInfoName::FileDescription => "FileDescription"@,
        FileInfoName::FileVersion => "FileVersion"@,
        FileInfoName::InternalName => "InternalName"@,
        FileInfoName::LegalCopyright => "LegalCopyright"@,
        FileInfoName::LegalTrademarks => "LegalTrademarks"@,
        FileInfoName::OriginalFilename => "OriginalFilename"@,
        FileInfoName::PrivateBuild => "PrivateBuild"@,
        FileInfoName::ProductName => "ProductName"@,
        FileInfoName::ProductVersion => "ProductVersion"@,
        FileInfoName::SpecialBuild => "SpecialBuild"@,
    }
}

impl FileInfoName {
    /// The script name of this entry.
    pub fn as_str(&self) -> (r: &'static str)
        ensures
            r@ == spec_name_text(*self),
    {
        match self {
            FileInfoName::Comments => "Comments",
            FileInfoName::CompanyName => "CompanyName",
            FileInfoName::FileDescription => "FileDescription",
            FileInfoName::FileVersion => "FileVersion",
            FileInfoName::InternalName => "InternalName",
            FileInfoName::LegalCopyright => "LegalCopyright",
            FileInfoName::LegalTrademarks => "LegalTrademarks",
            FileInfoName::OriginalFilename => "OriginalFilename",
            FileInfoName::PrivateBuild => "PrivateBuild",
            FileInfoName::ProductName => "ProductName",
            FileInfoName::ProductVersion => "ProductVersion",
            FileInfoName::SpecialBuild => "SpecialBuild",
        }
    }
}

/// One string table of a version record, in the order its entries are
/// written.
#[derive(Debug)]
pub struct StringFileInfo {
    pub entries: Vec<(FileInfoName, String)>,
}

impl View for StringFileInfo {
    type V = Seq<(FileInfoName, Seq<char>)>;

    open spec fn view(&self) -> Seq<(FileInfoName, Seq<char>)> {
        self.entries@.map_values(|p: (FileInfoName, String)| (p.0, p.1@))
    }
}

/// One value line of a string table.
pub open spec fn spec_sfi_entry(e: (FileInfoName, Seq<char>)) -> Seq<char> {
    "VALUE \""@ + spec_name_text(e.0) + "\", \""@ + e.1 + "\\0\"\n"@
}

/// The value lines of a string table, in order.
pub open spec fn spec_sfi_entries(es: Seq<(FileInfoName, Seq<char>)>) -> Seq<char>
    decreases es.len(),
{
    if es.len() == 0 {
        Seq::empty()
    } else {
        spec_sfi_entries(es.drop_last()) + spec_sfi_entry(es.last())
    }
}

/// A whole string table block.
pub open spec fn spec_sfi_text(es: Seq<(FileInfoName, Seq<char>)>) -> Seq<char> {
    "BEGIN\n"@ + spec_sfi_entries(es) + "END\n"@
}

fn sfi_entry_line(name: FileInfoName, value: &String) -> (r: String)
    ensures
        r@ == spec_sfi_entry((name, value@)),
{
    let mut r = String::new();
    r.append("VALUE \"");
    r.append(name.as_str());
    r.append("\", \"");
    r.append(value.as_str());
    r.append("\\0\"\n");
    r
}

impl StringFileInfo {
    /// Renders the string table block.
    pub fn to_text(&self) -> (r: String)
        ensures
            r@ == spec_sfi_text(self@),
    {
        let ghost ev = self@;
        let mut r = String::new();
        r.append("BEGIN\n");
        let mut i: usize = 0;
        while i < self.entries.len()
            invariant
                i <= self.entries.len(),
                ev == self@,
                r@ == "BEGIN\n"@ + spec_sfi_entries(ev.subrange(0, i as int)),
            decreases self.entries.len() - i,
        {
            let line = sfi_entry_line(self.entries[i].0, &self.entries[i].1);
            proof {
                assert(ev[i as int] == (self.entries@[i as int].0,
                self.entries@[i as int].1@));
                assert(ev.subrange(0, i + 1).drop_last() =~= ev.subrange(0, i as int));
                assert(ev.subrange(0, i + 1).last() == ev[i as int]);
            }
            r.append(line.as_str());
            i = i + 1;
        }
        proof {
            assert(ev.subrange(0, self.entries@.len() as int) =~= ev);
        }
        r.append("END\n");
        r
    }
}

/// The mathematical shape of a version record.
pub struct VersionInfoView {
    pub file_version: Seq<u16>,
    pub product_version: Seq<u16>,
    pub file_flags_mask: u32,
    pub file_flags: u32,
    pub file_os: u32,
    pub file_type: u32,
    pub file_subtype: u32,
    pub string_file_info: Seq<(LocaleId, Seq<(FileInfoName, Seq<char>)>)>,
}

/// One version record, with its string tables keyed by locale, in the
/// order the tables are written.
#[derive(Debug)]
pub struct VersionInfo {
    pub file_version: Version,
    pub product_version: Version,
    pub file_flags_mask: u32,
    pub file_flags: u32,
    pub file_os: u32,
    pub file_type: u32,
    pub file_subtype: u32,
    pub string_file_info: Vec<(LocaleId, StringFileInfo)>,
}

impl View for VersionInfo {
    type V = VersionInfoView;

    open spec fn view(&self) -> VersionInfoView {
        VersionInfoView {
            file_version: self.file_version.0@,
            product_version: self.product_version.0@,
            file_flags_mask: self.file_flags_mask,
            file_flags: self.file_flags,
            file_os: self.file_os,
            file_type: self.file_type,
            file_subtype: self.file_subtype,
            string_file_info: self.string_file_info@.map_values(
                |p: (LocaleId, StringFileInfo)| (p.0, p.1@),
            ),
        }
    }
}

/// One locale's string table block with its heading.
pub open spec fn spec_sfi_block(p: (LocaleId, Seq<(FileInfoName, Seq<char>)>)) -> Seq<
    char,
> {
    "BLOCK \""@ + spec_hex(p.0 as nat, 8, true) + "\"\n"@ + spec_sfi_text(p.1)
}

/// The string table blocks, in order.
pub open spec fn spec_sfi_blocks(
    m: Seq<(LocaleId, Seq<(FileInfoName, Seq<char>)>)>,
) -> Seq<char>
    decreases m.len(),
{
    if m.len() == 0 {
        Seq::empty()
    } else {
        spec_sfi_blocks(m.drop_last()) + spec_sfi_block(m.last())
    }
}

/// One locale's translation line.
pub open spec fn spec_translation(lcid: LocaleId) -> Seq<char> {
    "VALUE \"Translation\", 0x"@ + spec_hex((lcid / 0x10000) as nat, 4, false) + ", 0x"@
        + spec_hex((lcid % 0x10000) as nat, 4, false) + "\n"@
}

/// The translation lines, in order.
pub open spec fn spec_translations(
    m: Seq<(LocaleId, Seq<(FileInfoName, Seq<char>)>)>,
) -> Seq<char>
    decreases m.len(),
{
    if m.len() == 0 {
        Seq::empty()
    } else {
        spec_translations(m.drop_last()) + spec_translation(m.last().0)
    }
}

/// The full rendering of a version record.
pub open spec fn spec_version_info_text(v: VersionInfoView) -> Seq<char> {
    "VERSIONINFO\n"@ + "FILEVERSION     "@ + spec_version_text(v.file_version) + "\n"@
        + "PRODUCTVERSION  "@ + spec_version_text(v.product_version) + "\n"@
        + "FILEFLAGSMASK   0x"@ + spec_hex(v.file_flags_mask as nat, 8, false) + "\n"@
        + "FILEFLAGS       0x"@ + spec_hex(v.file_flags as nat, 8, false) + "\n"@
        + "FILEOS          0x"@ + spec_hex(v.file_os as nat, 8, false) + "\n"@
        + "FILETYPE        0x"@ + spec_hex(v.file_type as nat, 8, false) + "\n"@
        + "FILESUBTYPE     0x"@ + spec_hex(v.file_subtype as nat, 8, false) + "\n"@
        + "BEGIN\n"@ + "BLOCK \"StringFileInfo\"\n"@ + "BEGIN\n"@ + spec_sfi_blocks(
        v.string_file_info,
    ) + "END\n"@ + "BLOCK \"VarFileInfo\"\n"@ + "BEGIN\n"@ + spec_translations(
        v.string_file_info,
    ) + "END\n"@ + "END\n"@
}

fn sfi_block_line(lcid: LocaleId, sfi: &StringFileInfo) -> (r: String)
    ensures
        r@ == spec_sfi_block((lcid, sfi@)),
{
    let mut r = String::new();
    r.append("BLOCK \"");
    let h = hex_fixed(lcid, 8, true);
    r.append(h.as_str());
    r.append("\"\n");
    let body = sfi.to_text();
    r.append(body.as_str());
    r
}

fn translation_line(lcid: LocaleId) -> (r: String)
    ensures
        r@ == spec_translation(lcid),
{
    let mut r = String::new();
    r.append("VALUE \"Translation\", 0x");
    let hi = hex_fixed(lcid / 0x10000, 4, false);
    r.append(hi.as_str());
    r.append(", 0x");
    let lo = hex_fixed(lcid % 0x10000, 4, false);
    r.append(lo.as_str());
    r.append("\n");
    r
}

impl VersionInfo {
    /// Renders the version record.
    pub fn to_text(&self) -> (r: String)
        ensures
            r@ == spec_version_info_text(self@),
    {
        let ghost mv = self@.string_file_info;
        let mut r = String::new();
        r.append("VERSIONINFO\n");
        r.append("FILEVERSION     ");
        let fv = self.file_version.to_text();
        r.append(fv.as_str());
        r.append("\n");
        r.append("PRODUCTVERSION  ");
        let pv = self.product_version.to_text();
        r.append(pv.as_str());
        r.append("\n");
        r.append("FILEFLAGSMASK   0x");
        let ffm = hex_fixed(self.file_flags_mask, 8, false);
        r.append(ffm.as_str());
        r.append("\n");
        r.append("FILEFLAGS       0x");
        let ff = hex_fixed(self.file_flags, 8, false);
        r.append(ff.as_str());
        r.append("\n");
        r.append("FILEOS          0x");
        let fo = hex_fixed(self.file_os, 8, false);
        r.append(fo.as_str());
        r.append("\n");
        r.append("FILETYPE        0x");
        let ft = hex_fixed(self.file_type, 8, false);
        r.append(ft.as_str());
        r.append("\n");
        r.append("FILESUBTYPE     0x");
        let fs = hex_fixed(self.file_subtype, 8, false);
        r.append(fs.as_str());
        r.append("\n");
        r.append("BEGIN\n");
        r.append("BLOCK \"StringFileInfo\"\n");
        r.append("BEGIN\n");
        let mut blocks = String::new();
        let mut i: usize = 0;
        while i < self.string_file_info.len()
            invariant
                i <= self.string_file_info.len(),
                mv == self@.string_file_info,
                blocks@ == spec_sfi_blocks(mv.subrange(0, i as int)),
            decreases self.string_file_info.len() - i,
        {
            let line = sfi_block_line(
                self.string_file_info[i].0,
                &self.string_file_info[i].1,
            );
            proof {
                assert(mv[i as int] == (self.string_file_info@[i as int].0,
                self.string_file_info@[i as int].1@));
                assert(mv.subrange(0, i + 1).drop_last() =~= mv.subrange(0, i as int));
                assert(mv.subrange(0, i + 1).last() == mv[i as int]);
            }
            blocks.append(line.as_str());
            i = i + 1;
        }
        proof {
            assert(mv.subrange(0, self.string_file_info@.len() as int) =~= mv);
        }
        r.append(blocks.as_str());
        r.append("END\n");
        r.append("BLOCK \"VarFileInfo\"\n");
        r.append("BEGIN\n");
        let mut trans = String::new();
        let mut j: usize = 0;
        while j < self.string_file_info.len()
            invariant
                j <= self.string_file_info.len(),
                mv == self@.string_file_info,
                trans@ == spec_translations(mv.subrange(0, j as int)),
            decreases self.string_file_info.len() - j,
        {
            let line = translation_line(self.string_file_info[j].0);
            proof {
                assert(mv[j as int] == (self.string_file_info@[j as int].0,
                self.string_file_info@[j as int].1@));
                assert(mv.subrange(0, j + 1).drop_last() =~= mv.subrange(0, j as int));
                assert(mv.subrange(0, j + 1).last() == mv[j as int]);
            }
            trans.append(line.as_str());
            j = j + 1;
        }
        proof {
            assert(mv.subrange(0, self.string_file_info@.len() as int) =~= mv);
        }
        r.append(trans.as_str());
        r.append("END\n");
        r.append("END\n");
        r
    }
}


/// The mathematical shape of a user-defined resource payload.
pub enum UserDataView {
    Path(Seq<char>),
    Data(Seq<u8>),
}

/// A user-defined resource payload: a file path, or inline bytes.
#[derive(Debug)]
pub enum UserData {
    Path(String),
    Data(Vec<u8>),
}

impl View for UserData {
    type V = UserDataView;

    open spec fn view(&self) -> UserDataView {
        match self {
            UserData::Path(p) => UserDataView::Path(p@),
            UserData::Data(d) => UserDataView::Data(d@),
        }
    }
}

/// The escaping of one character inside a quoted path: quotes and
/// backslashes gain a backslash, everything else stays.
pub open spec fn spec_quote_char(c: char) -> Seq<char> {
    if c == '"' {
        "\\\""@
    } else if c == '\\' {
        "\\\\"@
    } else {
        seq![c]
    }
}

/// The escaped body of a quoted path.
pub open spec fn spec_quoted(s: Seq<char>) -> Seq<char>
    decreases s.len(),
{
    if s.len() == 0 {
        Seq::empty()
    } else {
        spec_quoted(s.drop_last()) + spec_quote_char(s.last())
    }
}

/// The rendering of one dumped byte.
pub open spec fn spec_byte_item(b: u8) -> Seq<char> {
    "\\x"@ + spec_hex(b as nat, 2, false)
}

/// The rendering of a run of dumped bytes.
pub open spec fn spec_byte_dump(bs: Seq<u8>) -> Seq<char>
    decreases bs.len(),
{
    if bs.len() == 0 {
        Seq::empty()
    } else {
        spec_byte_dump(bs.drop_last()) + spec_byte_item(bs.last())
    }
}

/// The dumped lines of inline bytes, thirty-two to a line.
pub open spec fn spec_chunk_lines(bs: Seq<u8>) -> Seq<char>
    decreases bs.len(),
{
    if bs.len() == 0 {
        Seq::empty()
    } else {
        let k: int = if bs.len() < 32 {
            bs.len() as int
        } else {
            32
        };
        ("  \""@ + spec_byte_dump(bs.subrange(0, k)) + "\"\n"@) + spec_chunk_lines(
            bs.skip(k),
        )
    }
}

/// The rendering of a user-defined payload: a quoted path, or the
/// brace-wrapped byte dump.
pub open spec fn spec_userdata_text(d: UserDataView) -> Seq<char> {
    match d {
        UserDataView::Path(p) => "\""@ + spec_quoted(p) + "\""@,
        UserDataView::Data(b) => "{\n"@ + spec_chunk_lines(b) + "}"@,
    }
}

fn quoted_path(p: &String) -> (r: String)
    ensures
        r@ == "\""@ + spec_quoted(p@) + "\""@,
{
    let pv: &str = p.as_str();
    let n: usize = pv.unicode_len();
    let mut body = String::new();
    let mut i: usize = 0;
    while i < n
        invariant
            i <= n,
            n == pv@.len(),
            pv@ == p@,
            body@ == spec_quoted(p@.subrange(0, i as int)),
        decreases n - i,
    {
        let c = pv.get_char(i);
        if c == '"' {
            body.append("\\\"");
        } else if c == '\\' {
            body.append("\\\\");
        } else {
            crate::textfmt::push_char(&mut body, c);
        }
        proof {
            assert(p@.subrange(0, i + 1).drop_last() =~= p@.subrange(0, i as int));
            assert(p@.subrange(0, i + 1).last() == p@[i as int]);
        }
        i = i + 1;
    }
    proof {
        assert(p@.subrange(0, n as int) =~= p@);
    }
    let mut r = String::new();
    r.append("\"");
    r.append(body.as_str());
    r.append("\"");
    r
}

fn byte_dump_line(data: &Vec<u8>, start: usize, end: usize) -> (r: String)
    requires
        start <= end <= data@.len(),
    ensures
        r@ == "  \""@ + spec_byte_dump(data@.subrange(start as int, end as int))
            + "\"\n"@,
{
    let mut body = String::new();
    let mut j: usize = start;
    while j < end
        invariant
            start <= j <= end <= data@.len(),
            body@ == spec_byte_dump(data@.subrange(start as int, j as int)),
        decreases end - j,
    {
        let mut item = String::new();
        item.append("\\x");
        let h = hex_fixed(data[j] as u32, 2, false);
        item.append(h.as_str());
        proof {
            assert(data@.subrange(start as int, j + 1).drop_last() =~= data@.subrange(
                start as int,
                j as int,
            ));
            assert(data@.subrange(start as int, j + 1).last() == data@[j as int]);
        }
        body.append(item.as_str());
        j = j + 1;
    }
    let mut r = String::new();
    r.append("  \"");
    r.append(body.as_str());
    r.append("\"\n");
    r
}

fn data_dump(data: &Vec<u8>) -> (r: String)
    ensures
        r@ == "{\n"@ + spec_chunk_lines(data@) + "}"@,
{
    let ghost bv = data@;
    let mut r = String::new();
    r.append("{\n");
    let mut pos: usize = 0;
    proof {
        assert(bv.skip(0) =~= bv);
    }
    while pos < data.len()
        invariant
            pos <= data@.len(),
            bv == data@,
            "{\n"@ + spec_chunk_lines(bv) == r@ + spec_chunk_lines(bv.skip(pos as int)),
        decreases data@.len() - pos,
    {
        let left: usize = data.len() - pos;
        let k: usize = if left < 32 {
            left
        } else {
            32
        };
        let line = byte_dump_line(data, pos, pos + k);
        proof {
            let rest = bv.skip(pos as int);
            assert(rest.subrange(0, k as int) =~= bv.subrange(
                pos as int,
                pos + k,
            ));
            assert(rest.skip(k as int) =~= bv.skip(pos + k));
            assert((r@ + line@) + spec_chunk_lines(bv.skip(pos + k)) =~= r@ + (line@
                + spec_chunk_lines(bv.skip(pos + k))));
        }
        r.append(line.as_str());
        pos = pos + k;
    }
    proof {
        assert(spec_chunk_lines(bv.skip(bv.len() as int)) =~= Seq::<char>::empty());
        assert(r@ + Seq::<char>::empty() =~= r@);
    }
    r.append("}");
    r
}

impl UserData {
    /// Renders the payload.
    pub fn to_text(&self) -> (r: String)
        ensures
            r@ == spec_userdata_text(self@),
    {
        match self {
            UserData::Path(p) => quoted_path(p),
            UserData::Data(d) => data_dump(d),
        }
    }
}

/// The mathematical shape of a user-defined resource entry.
pub struct UserDefinedView {
    pub name_id: u16,
    pub type_id: u16,
    pub data: UserDataView,
}

/// One user-defined resource entry.
#[derive(Debug)]
pub struct UserDefined {
    pub name_id: u16,
    pub type_id: u16,
    pub data: UserData,
}

impl View for UserDefined {
    type V = UserDefinedView;

    open spec fn view(&self) -> UserDefinedView {
        UserDefinedView { name_id: self.name_id, type_id: self.type_id, data: self.data@ }
    }
}

/// The rendering of one user-defined entry.
pub open spec fn spec_ud_text(u: UserDefinedView) -> Seq<char> {
    spec_dec(u.name_id as nat) + " "@ + spec_dec(u.type_id as nat) + " "@
        + spec_userdata_text(u.data) + "\n"@
}

impl UserDefined {
    /// Renders the entry.
    pub fn to_text(&self) -> (r: String)
        ensures
            r@ == spec_ud_text(self@),
    {
        let mut r = dec_u32(self.name_id as u32);
        r.append(" ");
        let t = dec_u32(self.type_id as u32);
        r.append(t.as_str());
        r.append(" ");
        let d = self.data.to_text();
        r.append(d.as_str());
        r.append("\n");
        r
    }
}

/// The mathematical shape of a resource script.
pub struct ResourceScriptView {
    pub version_info: Option<VersionInfoView>,
    pub user_defined: Seq<UserDefinedView>,
}

/// A whole resource script: an optional version record and the
/// user-defined entries.
#[derive(Debug)]
pub struct ResourceScript {
    pub version_info: Option<VersionInfo>,
    pub user_defined: Vec<UserDefined>,
}

impl View for ResourceScript {
    type V = ResourceScriptView;

    open spec fn view(&self) -> ResourceScriptView {
        ResourceScriptView {
            version_info: match &self.version_info {
                Some(v) => Some(v@),
                None => None,
            },
            user_defined: self.user_defined@.map_values(|u: UserDefined| u@),
        }
    }
}

/// The user-defined entries as the script writes them, each followed by
/// a blank line.
pub open spec fn spec_ud_items(us: Seq<UserDefinedView>) -> Seq<char>
    decreases us.len(),
{
    if us.len() == 0 {
        Seq::empty()
    } else {
        spec_ud_items(us.drop_last()) + (spec_ud_text(us.last()) + "\n"@ + "\n"@)
    }
}

/// The rendering of a whole resource script.
pub open spec fn spec_script_text(s: ResourceScriptView) -> Seq<char> {
    "#pragma code_page(65001)\n"@ + "\n"@ + (match s.version_info {
        Some(vi) => "1 "@ + spec_version_info_text(vi) + "\n"@ + "\n"@,
        None => Seq::empty(),
    }) + spec_ud_items(s.user_defined)
}

impl ResourceScript {
    /// Renders the script.
    pub fn to_text(&self) -> (r: String)
        ensures
            r@ == spec_script_text(self@),
    {
        let ghost uv = self@.user_defined;
        let mut r = String::new();
        r.append("#pragma code_page(65001)\n");
        r.append("\n");
        let vi_part = match &self.version_info {
            Some(vi) => {
                let mut p = String::new();
                p.append("1 ");
                let body = vi.to_text();
                p.append(body.as_str());
                p.append("\n");
                p.append("\n");
                p
            },
            None => String::new(),
        };
        r.append(vi_part.as_str());
        let mut items = String::new();
        let mut i: usize = 0;
        while i < self.user_defined.len()
            invariant
                i <= self.user_defined.len(),
                uv == self@.user_defined,
                items@ == spec_ud_items(uv.subrange(0, i as int)),
            decreases self.user_defined.len() - i,
        {
            let mut item = self.user_defined[i].to_text();
            item.append("\n");
            item.append("\n");
            proof {
                assert(uv[i as int] == self.user_defined@[i as int]@);
                assert(uv.subrange(0, i + 1).drop_last() =~= uv.subrange(0, i as int));
                assert(uv.subrange(0, i + 1).last() == uv[i as int]);
            }
            items.append(item.as_str());
            i = i + 1;
        }
        proof {
            assert(uv.subrange(0, self.user_defined@.len() as int) =~= uv);
        }
        r.append(items.as_str());
        r
    }
}

/// One step of parsing an unsigned sixteen-bit decimal: digits are
/// consumed left to right, a non-digit or an overflow stopping the scan
/// with the cause the standard parser would name.
pub open spec fn spec_scan_u16(s: Seq<char>, i: int, acc: int) -> Result<u16, Seq<char>>
    decreases s.len() - i,
    when 0 <= i <= s.len() && 0 <= acc <= 0xFFFF
{
    if i >= s.len() {
        Ok(acc as u16)
    } else if !(0x30 <= s[i] as int <= 0x39) {
        Err("invalid digit found in string"@)
    } else if acc * 10 + (s[i] as int - 0x30) > 0xFFFF {
        Err("number too large to fit in target type"@)
    } else {
        spec_scan_u16(s, i + 1, acc * 10 + (s[i] as int - 0x30))
    }
}

/// The parsing of an unsigned sixteen-bit decimal, empty input named as
/// the standard parser names it.
pub open spec fn spec_parse_u16(s: Seq<char>) -> Result<u16, Seq<char>> {
    if s.len() == 0 {
        Err("cannot parse integer from empty string"@)
    } else {
        spec_scan_u16(s, 0, 0)
    }
}

fn parse_u16_component(s: &str) -> (r: Result<u16, &'static str>)
    ensures
        spec_parse_u16(s@) matches Ok(v) ==> r == Result::<u16, &'static str>::Ok(v),
        spec_parse_u16(s@) matches Err(m) ==> (r matches Err(c) && c@ == m),
{
    let n: usize = s.unicode_len();
    if n == 0 {
        return Err("cannot parse integer from empty string");
    }
    let mut acc: u32 = 0;
    let mut i: usize = 0;
    while i < n
        invariant
            i <= n,
            n == s@.len(),
            n > 0,
            acc <= 0xFFFF,
            spec_scan_u16(s@, 0, 0) == spec_scan_u16(s@, i as int, acc as int),
        decreases n - i,
    {
        let c = s.get_char(i);
        let cu = c as u32;
        if cu < 0x30 || cu > 0x39 {
            return Err("invalid digit found in string");
        }
        let v: u32 = acc * 10 + (cu - 0x30);
        if v > 0xFFFF {
            return Err("number too large to fit in target type");
        }
        acc = v;
        i = i + 1;
    }
    Ok(acc as u16)
}

/// The parsing of a package version: everything before the first dash,
/// split on dots into at least major, minor and revision numbers, each
/// an unsigned sixteen-bit decimal; the build number is always zero.
/// The error names what the original reports: a missing part, or the
/// part whose parse failed with its cause.
pub open spec fn spec_parse_version(s: Seq<char>) -> Result<Seq<u16>, Seq<char>> {
    let core = s.subrange(0, spec_index_of(s, '-', 0));
    let i1 = spec_index_of(core, '.', 0);
    match spec_parse_u16(core.subrange(0, i1)) {
        Err(c) => Err("invalid major number: "@ + c),
        Ok(maj) => if i1 >= core.len() {
            Err("package version missing minor number"@)
        } else {
            let i2 = spec_index_of(core, '.', i1 + 1);
            match spec_parse_u16(core.subrange(i1 + 1, i2)) {
                Err(c) => Err("invalid minor number: "@ + c),
                Ok(minor) => if i2 >= core.len() {
                    Err("package version missing revision number"@)
                } else {
                    let i3 = spec_index_of(core, '.', i2 + 1);
                    match spec_parse_u16(core.subrange(i2 + 1, i3)) {
                        Err(c) => Err("invalid revision number: "@ + c),
                        Ok(rev) => Ok(seq![maj, minor, rev, 0u16]),
                    }
                },
            }
        },
    }
}

fn invalid_part_error<T>(prefix: &'static str, cause: &'static str) -> (r: Result<T, Error>)
    ensures
        r matches Err(e) && e matches Error::Other(m) && m@ == prefix@ + cause@,
{
    let mut m = prefix.to_owned();
    m.append(cause);
    Err(Error::Other(m))
}

/// Parses a package version into the four-part form.
pub fn parse_version(ver: &str) -> (r: Result<Version, Error>)
    ensures
        spec_parse_version(ver@) matches Ok(p) ==> (r matches Ok(v) && v.0@ == p),
        spec_parse_version(ver@) matches Err(m) ==> (r matches Err(e)
            && e matches Error::Other(em) && em@ == m),
{
    let dash = index_of(ver, '-', 0);
    let core: &str = ver.substring_char(0, dash);
    let n: usize = core.unicode_len();
    let i1 = index_of(core, '.', 0);
    let maj = match parse_u16_component(core.substring_char(0, i1)) {
        Ok(v) => v,
        Err(c) => {
            return invalid_part_error("invalid major number: ", c);
        },
    };
    if i1 >= n {
        return crate::other_error("package version missing minor number");
    }
    let i2 = index_of(core, '.', i1 + 1);
    let minor = match parse_u16_component(core.substring_char(i1 + 1, i2)) {
        Ok(v) => v,
        Err(c) => {
            return invalid_part_error("invalid minor number: ", c);
        },
    };
    if i2 >= n {
        return crate::other_error("package version missing revision number");
    }
    let i3 = index_of(core, '.', i2 + 1);
    let rev = match parse_u16_component(core.substring_char(i2 + 1, i3)) {
        Ok(v) => v,
        Err(c) => {
            return invalid_part_error("invalid revision number: ", c);
        },
    };
    let v = Version([maj, minor, rev, 0]);
    proof {
        assert(v.0@ =~= seq![maj, minor, rev, 0u16]);
    }
    Ok(v)
}

/// The string-table entries guessed from the package facts, in the
/// order they are written.
pub open spec fn spec_guessed_entries(name: Seq<char>, ver_str: Seq<char>) -> Seq<
    (FileInfoName, Seq<char>),
> {
    seq![
        (FileInfoName::Comments, "(unknown comments)"@),
        (FileInfoName::CompanyName, "(unknown company)"@),
        (FileInfoName::FileDescription, "(unknown file description)"@),
        (FileInfoName::FileVersion, ver_str),
        (FileInfoName::InternalName, name),
        (FileInfoName::LegalCopyright, "(unknown copyright)"@),
        (FileInfoName::LegalTrademarks, "(unknown trademarks)"@),
        (FileInfoName::OriginalFilename, "(unknown filename)"@),
        (FileInfoName::PrivateBuild, "(unknown private build)"@),
        (FileInfoName::ProductName, name),
        (FileInfoName::ProductVersion, ver_str),
        (FileInfoName::SpecialBuild, "(unknown special build)"@),
    ]
}

/// The version record guessed from the package facts: both versions the
/// parsed one, flags clear, an application on the NT platform family,
/// and one English string table.
pub open spec fn spec_guessed_version_info(
    name: Seq<char>,
    ver_str: Seq<char>,
    parts: Seq<u16>,
) -> VersionInfoView {
    VersionInfoView {
        file_version: parts,
        product_version: parts,
        file_flags_mask: 0,
        file_flags: 0,
        file_os: VOS_NT,
        file_type: VFT_APP,
        file_subtype: VFT2_UNKNOWN,
        string_file_info: seq![
            (LCID_EN_US_UTF_16, spec_guessed_entries(name, ver_str)),
        ],
    }
}

/// Builds the version record from the package facts; fails exactly when
/// the manifest lacks a name or a version, or the version does not
/// parse, naming the failure as the accessors and the parser do.
pub fn guess_version_info(carman: &CargoManifest) -> (r: Result<VersionInfo, Error>)
    ensures
        r matches Ok(vi) ==> carman.spec_name() is Some && carman.spec_version() is Some
            && spec_parse_version(carman.spec_version()->Some_0) is Ok && vi@
            == spec_guessed_version_info(
            carman.spec_name()->Some_0,
            carman.spec_version()->Some_0,
            spec_parse_version(carman.spec_version()->Some_0)->Ok_0,
        ),
        r matches Err(e) ==> e matches Error::Other(m) && (if carman.spec_name() is None {
            m@ == "could not find package name in manifest"@
        } else if carman.spec_version() is None {
            m@ == "could not find package version in manifest"@
        } else {
            spec_parse_version(carman.spec_version()->Some_0) matches Err(pm) && m@ == pm
        }),
{
    let name: String = match carman.package_name() {
        Ok(n) => n.to_owned(),
        Err(e) => {
            return Err(e);
        },
    };
    let ver_str: String = match carman.version() {
        Ok(v) => v.to_owned(),
        Err(e) => {
            return Err(e);
        },
    };
    let ver = match parse_version(ver_str.as_str()) {
        Ok(v) => v,
        Err(e) => {
            return Err(e);
        },
    };
    let desc: String = match carman.description() {
        Ok(d) => match d {
            Some(s) => s.to_owned(),
            None => "(unknown file description)".to_owned(),
        },
        Err(e) => {
            return Err(e);
        },
    };
    let mut entries: Vec<(FileInfoName, String)> = Vec::new();
    entries.push((FileInfoName::Comments, "(unknown comments)".to_owned()));
    entries.push((FileInfoName::CompanyName, "(unknown company)".to_owned()));
    entries.push((FileInfoName::FileDescription, desc));
    entries.push((FileInfoName::FileVersion, ver_str.clone()));
    entries.push((FileInfoName::InternalName, name.clone()));
    entries.push((FileInfoName::LegalCopyright, "(unknown copyright)".to_owned()));
    entries.push((FileInfoName::LegalTrademarks, "(unknown trademarks)".to_owned()));
    entries.push((FileInfoName::OriginalFilename, "(unknown filename)".to_owned()));
    entries.push((FileInfoName::PrivateBuild, "(unknown private build)".to_owned()));
    entries.push((FileInfoName::ProductName, name));
    entries.push((FileInfoName::ProductVersion, ver_str));
    entries.push((FileInfoName::SpecialBuild, "(unknown special build)".to_owned()));
    let sfi = StringFileInfo { entries };
    let mut tables: Vec<(LocaleId, StringFileInfo)> = Vec::new();
    tables.push((LCID_EN_US_UTF_16, sfi));
    let vi = VersionInfo {
        file_version: ver,
        product_version: ver,
        file_flags_mask: 0,
        file_flags: 0,
        file_os: VOS_NT,
        file_type: VFT_APP,
        file_subtype: VFT2_UNKNOWN,
        string_file_info: tables,
    };
    proof {
        assert(vi@.string_file_info[0].1 =~= spec_guessed_entries(
            carman.spec_name()->Some_0,
            carman.spec_version()->Some_0,
        ));
        assert(vi@.string_file_info =~~= spec_guessed_version_info(
            carman.spec_name()->Some_0,
            carman.spec_version()->Some_0,
            spec_parse_version(carman.spec_version()->Some_0)->Ok_0,
        ).string_file_info);
    }
    Ok(vi)
}

impl ResourceScript {
    /// Builds the script guessed from the package facts: its version
    /// record and no user-defined entries; fails exactly as the version
    /// guess does.
    pub fn guess(carman: &CargoManifest) -> (r: Result<ResourceScript, Error>)
        ensures
            r matches Ok(rs) ==> carman.spec_name() is Some && carman.spec_version()
                is Some && spec_parse_version(carman.spec_version()->Some_0) is Ok && rs@
                == (ResourceScriptView {
                version_info: Some(
                    spec_guessed_version_info(
                        carman.spec_name()->Some_0,
                        carman.spec_version()->Some_0,
                        spec_parse_version(carman.spec_version()->Some_0)->Ok_0,
                    ),
                ),
                user_defined: Seq::empty(),
            }),
            r matches Err(e) ==> e matches Error::Other(m) && (if carman.spec_name()
                is None {
                m@ == "could not find package name in manifest"@
            } else if carman.spec_version() is None {
                m@ == "could not find package version in manifest"@
            } else {
                spec_parse_version(carman.spec_version()->Some_0) matches Err(pm) && m@
                    == pm
            }),
    {
        let vi = match guess_version_info(carman) {
            Ok(v) => v,
            Err(e) => {
                return Err(e);
            },
        };
        let rs = ResourceScript { version_info: Some(vi), user_defined: Vec::new() };
        proof {
            assert(rs@.user_defined =~= Seq::<UserDefinedView>::empty());
        }
        Ok(rs)
    }
}

} // verus!
