//! Application-manifest generation: the assembly identity records and
//! their XML rendering, with attribute escaping.

use vstd::prelude::*;
use vstd::pervasive::unreached;

use crate::cargo::CargoManifest;
use crate::textfmt::push_char;
use crate::textfmt::spec_starts_with;
use crate::textfmt::str_starts_with;

verus! {

/// XML namespace of manifest assemblies.
pub const XMLNS_ASM_V1: &'static str = "urn:schemas-microsoft-com:asm.v1";

/// A processor architecture named in an assembly identity.
#[derive(Debug, Clone, Copy, PartialEq, Eq, Structural)]
pub enum ProcArch {
    X86,
    Amd64,
    Ia64,
}

impl ProcArch {
    /// The architecture's name as the manifest writes it.
    pub open spec fn spec_text(self) -> Seq<char> {
        match self {
            ProcArch::X86 => "x86"@,
            ProcArch::Amd64 => "amd64"@,
            ProcArch::Ia64 => "ia64"@,
        }
    }

    /// The architecture's name as the manifest writes it.
    pub fn text(&self) -> (r: &'static str)
        ensures
            r@ == self.spec_text(),
    {
        match self {
            ProcArch::X86 => "x86",
            ProcArch::Amd64 => "amd64",
            ProcArch::Ia64 => "ia64",
        }
    }
}

/// Chooses the present value to show, or the fallback.
#[derive(Debug)]
pub enum DisplayOr<A, B> {
    Shown(A),
    Fallback(B),
}

impl<A, B> DisplayOr<A, B> {
    /// Wraps the value if there is one, the fallback otherwise.
    pub fn some_or(opt: Option<A>, or: B) -> (r: DisplayOr<A, B>)
        ensures
            opt matches Some(a) ==> r == DisplayOr::<A, B>::Shown(a),
            opt is None ==> r == DisplayOr::<A, B>::Fallback(or),
    {
        match opt {
            Some(a) => DisplayOr::Shown(a),
            None => DisplayOr::Fallback(or),
        }
    }
}

/// The mathematical shape of an assembly identity.
pub struct AssemblyIdentView {
    pub name: Seq<char>,
    pub version: Seq<char>,
    pub proc_arch: Option<ProcArch>,
    pub lang: Option<Seq<char>>,
    pub public_key: Option<Seq<char>>,
}

/// One assembly identity: name, version, and the optional architecture,
/// language and public-key attributes.
#[derive(Debug)]
pub struct AssemblyIdent {
    pub name: String,
    pub version: String,
    pub proc_arch: Option<ProcArch>,
    pub lang: Option<String>,
    pub public_key: Option<String>,
}

impl View for AssemblyIdent {
    type V = AssemblyIdentView;

    open spec fn view(&self) -> AssemblyIdentView {
        AssemblyIdentView {
            name: self.name@,
            version: self.version@,
            proc_arch: self.proc_arch,
            lang: self.lang.deep_view(),
            public_key: self.public_key.deep_view(),
        }
    }
}

/// The mathematical shape of an assembly record.
pub struct AssemblyView {
    pub identity: AssemblyIdentView,
    pub dependencies: Seq<AssemblyIdentView>,
}

/// An assembly: its own identity and the identities it depends on.
#[derive(Debug)]
pub struct Assembly {
    pub identity: AssemblyIdent,
    pub dependencies: Vec<AssemblyIdent>,
}

impl View for Assembly {
    type V = AssemblyView;

    open spec fn view(&self) -> AssemblyView {
        AssemblyView {
            identity: self.identity@,
            dependencies: self.dependencies@.map_values(|d: AssemblyIdent| d@),
        }
    }
}

/// The common-controls assembly identity, version six, that manifests
/// opt into.
pub open spec fn spec_asm_comctl6() -> AssemblyIdentView {
    AssemblyIdentView {
        name: "Microsoft.Windows.Common-Controls"@,
        version: "6.0.0.0"@,
        proc_arch: None,
        lang: None,
        public_key: Some("6595b64144ccf1df"@),
    }
}

/// The common-controls assembly identity, version six.
pub fn asm_comctl6() -> (r: AssemblyIdent)
    ensures
        r@ == spec_asm_comctl6(),
{
    AssemblyIdent {
        name: "Microsoft.Windows.Common-Controls".to_owned(),
        version: "6.0.0.0".to_owned(),
        proc_arch: None,
        lang: None,
        public_key: Some("6595b64144ccf1df".to_owned()),
    }
}

/// The escaping of one character in an XML attribute value.
pub open spec fn spec_esc_char(c: char) -> Seq<char> {
    if c == '\'' {
        "&apos;"@
    } else if c == '"' {
        "&quot;"@
    } else if c == '&' {
        "&amp;"@
    } else {
        seq![c]
    }
}

/// The escaping of an XML attribute value: apostrophes, quotes and
/// ampersands become entities, everything else stays.
pub open spec fn spec_xml_escape(s: Seq<char>) -> Seq<char>
    decreases s.len(),
{
    if s.len() == 0 {
        Seq::empty()
    } else {
        spec_xml_escape(s.drop_last()) + spec_esc_char(s.last())
    }
}

/// Escapes a string for use as an XML attribute value.
pub fn xml_escape_attr(s: &str) -> (r: String)
    ensures
        r@ == spec_xml_escape(s@),
{
    let n: usize = s.unicode_len();
    let mut r = String::new();
    let mut i: usize = 0;
    while i < n
        invariant
            i <= n,
            n == s@.len(),
            r@ == spec_xml_escape(s@.subrange(0, i as int)),
        decreases n - i,
    {
        let c = s.get_char(i);
        if c == '\'' {
            r.append("&apos;");
        } else if c == '"' {
            r.append("&quot;");
        } else if c == '&' {
            r.append("&amp;");
        } else {
            push_char(&mut r, c);
        }
        proof {
            assert(s@.subrange(0, i + 1).drop_last() =~= s@.subrange(0, i as int));
            assert(s@.subrange(0, i + 1).last() == s@[i as int]);
        }
        i = i + 1;
    }
    proof {
        assert(s@.subrange(0, n as int) =~= s@);
    }
    r
}

/// The architecture attribute's value: the architecture's name, or the
/// any-architecture star.
pub open spec fn spec_ident_arch(a: AssemblyIdentView) -> Seq<char> {
    match a.proc_arch {
        Some(p) => p.spec_text(),
        None => "*"@,
    }
}

/// The optional language attribute.
pub open spec fn spec_ident_lang(a: AssemblyIdentView) -> Seq<char> {
    match a.lang {
        Some(l) => " language='"@ + l + "'"@,
        None => Seq::empty(),
    }
}

/// The optional public-key attribute.
pub open spec fn spec_ident_key(a: AssemblyIdentView) -> Seq<char> {
    match a.public_key {
        Some(k) => " publicKeyToken='"@ + k + "'"@,
        None => Seq::empty(),
    }
}

/// The XML element of one assembly identity.
pub open spec fn spec_ident_xml(a: AssemblyIdentView) -> Seq<char> {
    "<assemblyIdentity type='win32' name='"@ + spec_xml_escape(a.name) + "' version='"@
        + spec_xml_escape(a.version) + "' processorArchitecture='"@ + spec_ident_arch(a)
        + "' "@ + spec_ident_lang(a) + spec_ident_key(a) + "/>"@
}

/// Renders one assembly identity as its XML element.
pub fn ident_xml(a: &AssemblyIdent) -> (r: String)
    ensures
        r@ == spec_ident_xml(a@),
{
    let mut r = String::new();
    r.append("<assemblyIdentity type='win32' name='");
    let name = xml_escape_attr(a.name.as_str());
    r.append(name.as_str());
    r.append("' version='");
    let version = xml_escape_attr(a.version.as_str());
    r.append(version.as_str());
    r.append("' processorArchitecture='");
    match DisplayOr::<ProcArch, &str>::some_or(a.proc_arch, "*") {
        DisplayOr::Shown(p) => r.append(p.text()),
        DisplayOr::Fallback(star) => r.append(star),
    }
    r.append("' ");
    let lang_part = ident_lang_part(a);
    r.append(lang_part.as_str());
    let key_part = ident_key_part(a);
    r.append(key_part.as_str());
    r.append("/>");
    r
}

fn ident_lang_part(a: &AssemblyIdent) -> (r: String)
    ensures
        r@ == spec_ident_lang(a@),
{
    let mut r = String::new();
    match &a.lang {
        Some(l) => {
            r.append(" language='");
            r.append(l.as_str());
            r.append("'");
        },
        None => {},
    }
    r
}

fn ident_key_part(a: &AssemblyIdent) -> (r: String)
    ensures
        r@ == spec_ident_key(a@),
{
    let mut r = String::new();
    match &a.public_key {
        Some(k) => {
            r.append(" publicKeyToken='");
            r.append(k.as_str());
            r.append("'");
        },
        None => {},
    }
    r
}

/// The chain of dependent-assembly elements.
pub open spec fn spec_dep_items(deps: Seq<AssemblyIdentView>) -> Seq<char>
    decreases deps.len(),
{
    if deps.len() == 0 {
        Seq::empty()
    } else {
        spec_dep_items(deps.drop_last()) + ("<dependentAssembly>"@ + spec_ident_xml(
            deps.last(),
        ) + "</dependentAssembly>"@)
    }
}

/// The dependency block: absent when there are no dependencies.
pub open spec fn spec_deps_xml(deps: Seq<AssemblyIdentView>) -> Seq<char> {
    if deps.len() == 0 {
        Seq::empty()
    } else {
        "<dependency>"@ + spec_dep_items(deps) + "</dependency>"@
    }
}

/// The XML element of a whole assembly record.
pub open spec fn spec_assembly_xml(a: AssemblyView) -> Seq<char> {
    "<assembly xmlns='"@ + spec_xml_escape("urn:schemas-microsoft-com:asm.v1"@)
        + "' manifestVersion='1.0'>"@ + spec_ident_xml(a.identity) + spec_deps_xml(
        a.dependencies,
    ) + "</assembly>"@
}

/// Renders a whole assembly record as its XML element.
pub fn assembly_xml(a: &Assembly) -> (r: String)
    ensures
        r@ == spec_assembly_xml(a@),
{
    let ghost dv: Seq<AssemblyIdentView> = a.dependencies@.map_values(
        |d: AssemblyIdent| d@,
    );
    let mut r = String::new();
    r.append("<assembly xmlns='");
    let ns = xml_escape_attr(XMLNS_ASM_V1);
    proof {
        assert(XMLNS_ASM_V1@ == "urn:schemas-microsoft-com:asm.v1"@);
    }
    r.append(ns.as_str());
    r.append("' manifestVersion='1.0'>");
    let ident = ident_xml(&a.identity);
    r.append(ident.as_str());
    if a.dependencies.len() > 0 {
        r.append("<dependency>");
        let mut i: usize = 0;
        let mut items = String::new();
        while i < a.dependencies.len()
            invariant
                i <= a.dependencies.len(),
                dv == a.dependencies@.map_values(|d: AssemblyIdent| d@),
                items@ == spec_dep_items(dv.subrange(0, i as int)),
            decreases a.dependencies.len() - i,
        {
            let item = dep_item_xml(&a.dependencies[i]);
            proof {
                assert(dv[i as int] == a.dependencies@[i as int]@);
                assert(dv.subrange(0, i + 1).drop_last() =~= dv.subrange(0, i as int));
                assert(dv.subrange(0, i + 1).last() == dv[i as int]);
            }
            items.append(item.as_str());
            i = i + 1;
        }
        proof {
            assert(dv.subrange(0, a.dependencies@.len() as int) =~= dv);
        }
        r.append(items.as_str());
        r.append("</dependency>");
        proof {
            assert(dv.len() > 0);
        }
    } else {
        proof {
            assert(dv.len() == 0);
        }
    }
    r.append("</assembly>");
    r
}

fn dep_item_xml(d: &AssemblyIdent) -> (r: String)
    ensures
        r@ == "<dependentAssembly>"@ + spec_ident_xml(d@) + "</dependentAssembly>"@,
{
    let mut r = String::new();
    r.append("<dependentAssembly>");
    let ident = ident_xml(d);
    r.append(ident.as_str());
    r.append("</dependentAssembly>");
    r
}

/// The full manifest document: the XML declaration, then the assembly.
pub open spec fn spec_manifest_doc(a: AssemblyView) -> Seq<char> {
    "<?xml version='1.0' encoding='UTF-8' standalone='yes'?>\r\n"@ + spec_assembly_xml(a)
}

/// Renders the full manifest document for an assembly record.
pub fn write_manifest(assembly: &Assembly) -> (r: String)
    ensures
        r@ == spec_manifest_doc(assembly@),
{
    let mut r = String::new();
    r.append("<?xml version='1.0' encoding='UTF-8' standalone='yes'?>\r\n");
    let body = assembly_xml(assembly);
    r.append(body.as_str());
    r
}

/// The assembly record guessed from the package facts: the package's
/// name and extended version under the build target's architecture,
/// depending on the common-controls assembly when asked to.
pub open spec fn spec_guessed_manifest(
    name: Seq<char>,
    version_base: Seq<char>,
    target: Seq<char>,
    use_comctl6: bool,
) -> AssemblyView {
    AssemblyView {
        identity: AssemblyIdentView {
            name,
            version: version_base + ".0"@,
            proc_arch: Some(
                if spec_starts_with(target, "i686-"@) {
                    ProcArch::X86
                } else {
                    ProcArch::Amd64
                },
            ),
            lang: None,
            public_key: None,
        },
        dependencies: if use_comctl6 {
            seq![spec_asm_comctl6()]
        } else {
            Seq::empty()
        },
    }
}

/// Builds the assembly record from the package facts.  The manifest
/// must name the package, and the target must be one of the two
/// recognized architecture prefixes.
pub fn guess_manifest(
    manifest: &CargoManifest,
    pkg_version: &str,
    target: &str,
    use_comctl6: bool,
) -> (r: Assembly)
    requires
        manifest.spec_name() is Some,
        spec_starts_with(target@, "i686-"@) || spec_starts_with(target@, "x86_64-"@),
    ensures
        r@ == spec_guessed_manifest(
            manifest.spec_name()->Some_0,
            pkg_version@,
            target@,
            use_comctl6,
        ),
{
    let name = match manifest.package_name() {
        Ok(n) => n.to_owned(),
        Err(_) => unreached(),
    };
    let mut version = pkg_version.to_owned();
    version.append(".0");
    let proc_arch = if str_starts_with(target, "i686-") {
        ProcArch::X86
    } else {
        ProcArch::Amd64
    };
    let dependencies = if use_comctl6 {
        let mut v: Vec<AssemblyIdent> = Vec::new();
        v.push(asm_comctl6());
        v
    } else {
        Vec::new()
    };
    let r = Assembly {
        identity: AssemblyIdent { name, version, proc_arch: Some(proc_arch), lang: None, public_key: None },
        dependencies,
    };
    proof {
        assert(r@.dependencies =~= spec_guessed_manifest(
            manifest.spec_name()->Some_0,
            pkg_version@,
            target@,
            use_comctl6,
        ).dependencies);
    }
    r
}

/// Renders the full manifest document from the package facts, in one
/// step.
pub fn quick_manifest(
    manifest: &CargoManifest,
    pkg_version: &str,
    target: &str,
    use_comctl6: bool,
) -> (r: String)
    requires
        manifest.spec_name() is Some,
        spec_starts_with(target@, "i686-"@) || spec_starts_with(target@, "x86_64-"@),
    ensures
        r@ == spec_manifest_doc(
            spec_guessed_manifest(
                manifest.spec_name()->Some_0,
                pkg_version@,
                target@,
                use_comctl6,
            ),
        ),
{
    let assembly = guess_manifest(manifest, pkg_version, target, use_comctl6);
    write_manifest(&assembly)
}

} // verus!
