//! Expansion of shared declarations into their owning, exporting or
//! importing form.
//!
//! A shared declaration is written once and built into several modules. The
//! role of each build picks its form:
//! - local: the declaration as written, with storage private to the module;
//! - exporting: the storage as written, published to the dynamic loader under
//!   the declaration's stable name;
//! - importing: no storage; the symbol of that stable name, resolved at load
//!   time, behind a wrapper that takes the declaration's name.
//!
//! The stable name depends on the declaration's name alone, so that every
//! build computes the same one. The output is Rust source text.
use vstd::prelude::*;
use vstd::string::*;
use crate::role::{Role, RoleConflict, role_of, resolve_role};

verus! {

/// What a shared declaration holds and for how long.
#[derive(Clone, Copy, Debug, PartialEq, Eq, Structural)]
pub enum DeclKind {
    /// One value per process, immutable.
    Static,
    /// One value per process, mutable (`static mut`).
    StaticMut,
    /// One value per thread, created on first access by each thread.
    ThreadLocal,
}

/// A shared declaration: `<visibility> static <name>: <ty> = <init>;`, or the
/// same inside `thread_local!`.
pub struct Declaration {
    /// Visibility as written (`pub`, `pub(crate)`), or empty.
    pub visibility: String,
    /// The declared name, unique within its module.
    pub name: String,
    /// The value's type, as written.
    pub ty: String,
    /// The initializer expression, as written.
    pub init: String,
    pub kind: DeclKind,
}

/// The text of a [`Declaration`].
pub struct DeclarationView {
    pub visibility: Seq<char>,
    pub name: Seq<char>,
    pub ty: Seq<char>,
    pub init: Seq<char>,
    pub kind: DeclKind,
}

impl View for Declaration {
    type V = DeclarationView;

    open spec fn view(&self) -> DeclarationView {
        DeclarationView {
            visibility: self.visibility@,
            name: self.name@,
            ty: self.ty@,
            init: self.init@,
            kind: self.kind,
        }
    }
}

/// How an importing build reaches the exporter's storage in place of the
/// declaration.
pub enum Access {
    /// Through the resolved symbol itself, under the declaration's name
    /// (`static mut`, which needs `unsafe` at each use anyway).
    Direct,
    /// Through a [`crate::TrustedExtern`] around the resolved reference.
    Single,
    /// Through a [`crate::TrustedExternDouble`] around the resolved
    /// reference to the thread-local accessor.
    Double,
}

/// Where a declaration's storage is, in one build.
pub enum Link {
    /// In this module, seen by no other.
    Private,
    /// In this module, published under the symbol.
    Published(Seq<char>),
    /// In the module that publishes the symbol; this one holds none.
    Resolved(Seq<char>, Access),
}

impl Link {
    /// Whether the build declares the storage itself.
    pub open spec fn holds_storage(self) -> bool {
        !(self is Resolved)
    }
}

/// Appended to a name to make its stable symbol name.
pub open spec fn export_suffix() -> Seq<char> {
    "__rubicon_export"@
}

/// Appended to a name to make the local name of the resolved symbol.
pub open spec fn import_suffix() -> Seq<char> {
    "__rubicon_import"@
}

/// The symbol under which a declaration named `name` is published and
/// resolved.
pub open spec fn stable_name_of(name: Seq<char>) -> Seq<char> {
    name + export_suffix()
}

/// How an importing build reaches storage of each kind.
pub open spec fn access_of(kind: DeclKind) -> Access {
    match kind {
        DeclKind::Static => Access::Single,
        DeclKind::StaticMut => Access::Direct,
        DeclKind::ThreadLocal => Access::Double,
    }
}

/// Where the storage of `d` is in a build of role `role`.
pub open spec fn link_of(d: DeclarationView, role: Role) -> Link {
    match role {
        Role::Local => Link::Private,
        Role::Exporting => Link::Published(stable_name_of(d.name)),
        Role::Importing => Link::Resolved(stable_name_of(d.name), access_of(d.kind)),
    }
}

/// The visibility followed by a space, or nothing.
pub open spec fn vis_prefix(v: Seq<char>) -> Seq<char> {
    if v.len() == 0 {
        Seq::empty()
    } else {
        v + " "@
    }
}

/// `static ` or `static mut `.
pub open spec fn static_word(kind: DeclKind) -> Seq<char> {
    if kind == DeclKind::StaticMut {
        "static mut "@
    } else {
        "static "@
    }
}

/// The declaration as written, on one line.
pub open spec fn storage_line(d: DeclarationView) -> Seq<char> {
    vis_prefix(d.visibility) + static_word(d.kind) + d.name + ": "@ + d.ty + " = "@ + d.init
        + ";\n"@
}

/// The local form: the declaration as written, thread-locals inside
/// `thread_local!`.
pub open spec fn owned_form(d: DeclarationView) -> Seq<char> {
    if d.kind == DeclKind::ThreadLocal {
        "::std::thread_local! {\n    "@ + storage_line(d) + "}\n"@
    } else {
        storage_line(d)
    }
}

/// The exporting form: the storage published as `sym`. A process-scoped
/// value is published itself; for a thread-local, a reference to its
/// accessor is.
pub open spec fn publish_form(d: DeclarationView, sym: Seq<char>) -> Seq<char> {
    if d.kind == DeclKind::ThreadLocal {
        owned_form(d) + "#[no_mangle]\nstatic "@ + sym + ": &::std::thread::LocalKey<"@ + d.ty
            + "> = &"@ + d.name + ";\n"@
    } else {
        "#[export_name = \""@ + sym + "\"]\n"@ + owned_form(d)
    }
}

/// The opening of the block that declares the symbol `sym` to be resolved
/// at load time.
pub open spec fn resolve_head(sym: Seq<char>) -> Seq<char> {
    "extern \"Rust\" {\n    #[link_name = \""@ + sym + "\"]\n    #[allow(improper_ctypes)]\n    "@
}

/// The importing form: `sym` resolved at load time and reached through
/// `access` under the declaration's name.
pub open spec fn resolve_form(d: DeclarationView, sym: Seq<char>, access: Access) -> Seq<char> {
    let alias = d.name + import_suffix();
    match access {
        Access::Direct => resolve_head(sym) + vis_prefix(d.visibility) + "static mut "@ + d.name
            + ": "@ + d.ty + ";\n}\n"@,
        Access::Single => resolve_head(sym) + "static "@ + alias + ": "@ + d.ty + ";\n}\n"@
            + vis_prefix(d.visibility) + "static "@ + d.name + ": ::rubicon::TrustedExtern<"@
            + d.ty + "> = ::rubicon::TrustedExtern(unsafe { &"@ + alias + " });\n"@,
        Access::Double => resolve_head(sym) + "static "@ + alias
            + ": &'static ::std::thread::LocalKey<"@ + d.ty + ">;\n}\n"@ + vis_prefix(
            d.visibility,
        ) + "static "@ + d.name + ": ::rubicon::TrustedExternDouble<::std::thread::LocalKey<"@
            + d.ty + ">> = ::rubicon::TrustedExternDouble(unsafe { &"@ + alias + " });\n"@,
    }
}

/// The source that a build of role `role` compiles for `d`.
pub open spec fn expansion(d: DeclarationView, role: Role) -> Seq<char> {
    match link_of(d, role) {
        Link::Private => owned_form(d),
        Link::Published(sym) => publish_form(d, sym),
        Link::Resolved(sym, access) => resolve_form(d, sym, access),
    }
}

/// The expansions of `ds`, one after another.
pub open spec fn expansions(ds: Seq<DeclarationView>, role: Role) -> Seq<char>
    decreases ds.len(),
{
    if ds.len() == 0 {
        Seq::empty()
    } else {
        expansions(ds.drop_last(), role) + expansion(ds.last(), role)
    }
}

/// The symbol under which a declaration named `name` is published and
/// resolved, in every build.
pub fn stable_name(name: &str) -> (r: String)
    ensures
        r@ == stable_name_of(name@),
{
    String::from_str(name).concat("__rubicon_export")
}

fn vis_text(v: &str) -> (r: String)
    ensures
        r@ == vis_prefix(v@),
{
    if v.is_empty() {
        String::new()
    } else {
        String::from_str(v).concat(" ")
    }
}

fn storage_text(d: &Declaration) -> (r: String)
    ensures
        r@ == storage_line(d@),
{
    let mut out = vis_text(d.visibility.as_str());
    if d.kind == DeclKind::StaticMut {
        out.append("static mut ");
    } else {
        out.append("static ");
    }
    out.append(d.name.as_str());
    out.append(": ");
    out.append(d.ty.as_str());
    out.append(" = ");
    out.append(d.init.as_str());
    out.append(";\n");
    out
}

fn owned_text(d: &Declaration) -> (r: String)
    ensures
        r@ == owned_form(d@),
{
    if d.kind == DeclKind::ThreadLocal {
        let mut out = String::from_str("::std::thread_local! {\n    ");
        out.append(storage_text(d).as_str());
        out.append("}\n");
        out
    } else {
        storage_text(d)
    }
}

fn publish_text(d: &Declaration, sym: &str) -> (r: String)
    ensures
        r@ == publish_form(d@, sym@),
{
    if d.kind == DeclKind::ThreadLocal {
        let mut out = owned_text(d);
        out.append("#[no_mangle]\nstatic ");
        out.append(sym);
        out.append(": &::std::thread::LocalKey<");
        out.append(d.ty.as_str());
        out.append("> = &");
        out.append(d.name.as_str());
        out.append(";\n");
        out
    } else {
        let mut out = String::from_str("#[export_name = \"");
        out.append(sym);
        out.append("\"]\n");
        out.append(owned_text(d).as_str());
        out
    }
}

fn resolve_text(d: &Declaration, sym: &str) -> (r: String)
    ensures
        r@ == resolve_form(d@, sym@, access_of(d.kind)),
{
    let alias = String::from_str(d.name.as_str()).concat("__rubicon_import");
    let mut out = String::from_str("extern \"Rust\" {\n    #[link_name = \"");
    out.append(sym);
    out.append("\"]\n    #[allow(improper_ctypes)]\n    ");
    match d.kind {
        DeclKind::StaticMut => {
            out.append(vis_text(d.visibility.as_str()).as_str());
            out.append("static mut ");
            out.append(d.name.as_str());
            out.append(": ");
            out.append(d.ty.as_str());
            out.append(";\n}\n");
        },
        DeclKind::Static => {
            out.append("static ");
            out.append(alias.as_str());
            out.append(": ");
            out.append(d.ty.as_str());
            out.append(";\n}\n");
            out.append(vis_text(d.visibility.as_str()).as_str());
            out.append("static ");
            out.append(d.name.as_str());
            out.append(": ::rubicon::TrustedExtern<");
            out.append(d.ty.as_str());
            out.append("> = ::rubicon::TrustedExtern(unsafe { &");
            out.append(alias.as_str());
            out.append(" });\n");
        },
        DeclKind::ThreadLocal => {
            out.append("static ");
            out.append(alias.as_str());
            out.append(": &'static ::std::thread::LocalKey<");
            out.append(d.ty.as_str());
            out.append(">;\n}\n");
            out.append(vis_text(d.visibility.as_str()).as_str());
            out.append("static ");
            out.append(d.name.as_str());
            out.append(": ::rubicon::TrustedExternDouble<::std::thread::LocalKey<");
            out.append(d.ty.as_str());
            out.append(">> = ::rubicon::TrustedExternDouble(unsafe { &");
            out.append(alias.as_str());
            out.append(" });\n");
        },
    }
    out
}

/// The source that a build of role `role` compiles for `d`.
pub fn expand(d: &Declaration, role: Role) -> (r: String)
    ensures
        r@ == expansion(d@, role),
{
    match role {
        Role::Local => owned_text(d),
        Role::Exporting => {
            let sym = stable_name(d.name.as_str());
            publish_text(d, sym.as_str())
        },
        Role::Importing => {
            let sym = stable_name(d.name.as_str());
            resolve_text(d, sym.as_str())
        },
    }
}

/// The text of each declaration of `ds`.
pub open spec fn views(ds: Seq<Declaration>) -> Seq<DeclarationView> {
    ds.map_values(|d: Declaration| d@)
}

/// What a build with signals `export` and `import` compiles for `decls`:
/// the expansion of each in its role, or the conflict when both are set.
pub open spec fn expand_all_spec(
    decls: Seq<DeclarationView>,
    export: bool,
    import: bool,
) -> Result<Seq<char>, RoleConflict> {
    match role_of(export, import) {
        Ok(role) => Ok(expansions(decls, role)),
        Err(e) => Err(e),
    }
}

/// Resolves the role from `export` and `import`, then expands every
/// declaration of `decls` in it, in order. Fails, before any expansion,
/// when both signals are set.
pub fn expand_all(decls: &Vec<Declaration>, export: bool, import: bool) -> (r: Result<
    String,
    RoleConflict,
>)
    ensures
        match r {
            Ok(s) => expand_all_spec(views(decls@), export, import) == Ok::<
                Seq<char>,
                RoleConflict,
            >(s@),
            Err(e) => expand_all_spec(views(decls@), export, import) == Err::<
                Seq<char>,
                RoleConflict,
            >(e),
        },
{
    let role = match resolve_role(export, import) {
        Ok(role) => role,
        Err(e) => {
            return Err(e);
        },
    };
    let mut out = String::new();
    let mut i: usize = 0;
    while i < decls.len()
        invariant
            i <= decls.len(),
            out@ == expansions(views(decls@.take(i as int)), role),
        decreases decls.len() - i,
    {
        let piece = expand(&decls[i], role);
        out.append(piece.as_str());
        proof {
            let next = views(decls@.take(i + 1));
            assert(next.drop_last() =~= views(decls@.take(i as int)));
            assert(next.last() == decls@[i as int]@);
        }
        i = i + 1;
    }
    assert(decls@.take(decls.len() as int) =~= decls@);
    Ok(out)
}

/// A build that selects both the exporting and the importing role fails
/// before any declaration is expanded, whatever the declarations, none
/// included.
pub proof fn lemma_conflict_always_fails(decls: Seq<DeclarationView>)
    ensures
        expand_all_spec(decls, true, true) == Err::<Seq<char>, RoleConflict>(RoleConflict),
{
}

/// The stable name is a function of the name alone: an exporting and an
/// importing build of declarations with one name publish and resolve the
/// same symbol, the name followed by the export suffix.
pub proof fn lemma_builds_link(exporter: DeclarationView, importer: DeclarationView)
    requires
        exporter.name == importer.name,
    ensures
        link_of(exporter, Role::Exporting) == Link::Published(stable_name_of(exporter.name)),
        link_of(importer, Role::Importing) == Link::Resolved(
            stable_name_of(exporter.name),
            access_of(importer.kind),
        ),
        stable_name_of(exporter.name) == exporter.name + export_suffix(),
{
}

/// Of an exporting and an importing build of one declaration, only the
/// exporter declares storage; the importer reaches it through the symbol
/// the exporter publishes. A process-scoped immutable value is reached
/// through one level of reference, a thread-local's accessor through two,
/// so every module uses one storage location, or on each thread one slot.
pub proof fn lemma_one_storage(d: DeclarationView)
    ensures
        link_of(d, Role::Exporting).holds_storage(),
        !link_of(d, Role::Importing).holds_storage(),
        link_of(d, Role::Exporting) matches Link::Published(p) && link_of(
            d,
            Role::Importing,
        ) matches Link::Resolved(q, _) && p == q,
        d.kind == DeclKind::Static ==> access_of(d.kind) == Access::Single,
        d.kind == DeclKind::ThreadLocal ==> access_of(d.kind) == Access::Double,
        d.kind == DeclKind::StaticMut ==> access_of(d.kind) == Access::Direct,
{
}

} // verus!
