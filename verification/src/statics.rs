//! The static analyzer's context: the namespace tree built by declaration
//! scanning, the resolution map, the unification-variable table, and the
//! collected diagnostics.

use vstd::prelude::*;
use crate::builtin::{BuiltinOperation, BuiltinType};
use crate::patterns::{DeconstructedPat, uncovered_shapes};
use crate::typecheck::{Constraint, Nominal, PotentialType, Prov, TypeKey, TypeVar, solve_types};

verus! {

/// One source file: its display name, its resolved path, and its text.
#[derive(Debug, Clone)]
pub struct FileData {
    pub name: String,
    pub path: String,
    pub contents: String,
}

impl FileData {
    pub fn new(name: String, path: String, contents: String) -> (r: FileData)
        ensures
            r.name == name,
            r.path == path,
            r.contents == contents,
    {
        FileData { name, path, contents }
    }
}

/// Mapping from file id to its data; file ids index this table.
#[derive(Debug, Clone)]
pub struct FileDatabase {
    pub files: Vec<FileData>,
}

/// A source location: the file and a byte range in it.
#[derive(Debug, Clone, Copy, PartialEq, Eq, Structural)]
pub struct Location {
    pub file_id: u32,
    pub start: usize,
    pub end: usize,
}

/// The stable identity and location of one AST node.
#[derive(Debug, Clone, Copy, PartialEq, Eq, Structural)]
pub struct AstNode {
    pub id: u64,
    pub location: Location,
}

impl AstNode {
    /// The file and byte range a diagnostic about this node points at.
    pub fn get_file_and_range(&self) -> (r: (u32, usize, usize))
        ensures
            r.0 == self.location.file_id,
            r.1 == self.location.start,
            r.2 == self.location.end,
    {
        (self.location.file_id, self.location.start, self.location.end)
    }
}

/// A named entity a path can resolve to. Definitions are carried by the id
/// they were assigned while scanning declarations.
#[derive(Debug, PartialEq, Eq)]
pub enum Declaration {
    FreeFunction(u32),
    HostFunction(u32),
    ForeignFunction { f: u32, libname: String, symbol: String },
    InterfaceDef(u32),
    InterfaceMethod { iface: u32, method: usize },
    InterfaceOutputType { iface: u32, ty: u32 },
    MemberFunction { f: u32 },
    Enum(u32),
    EnumVariant { e: u32, variant: usize },
    Struct(u32),
    Array,
    Builtin(BuiltinOperation),
    BuiltinType(BuiltinType),
    Var(AstNode),
    Polytype(PolytypeDeclaration),
}

#[derive(Debug, Clone, Copy, PartialEq, Eq, Structural)]
pub enum PolytypeDeclaration {
    InterfaceSelf(u32),
    Ordinary(u32),
}

impl Clone for Declaration {
    fn clone(&self) -> (r: Self)
        ensures
            r == self,
    {
        match self {
            Declaration::FreeFunction(f) => Declaration::FreeFunction(*f),
            Declaration::HostFunction(f) => Declaration::HostFunction(*f),
            Declaration::ForeignFunction { f, libname, symbol } => Declaration::ForeignFunction {
                f: *f,
                libname: libname.clone(),
                symbol: symbol.clone(),
            },
            Declaration::InterfaceDef(i) => Declaration::InterfaceDef(*i),
            Declaration::InterfaceMethod { iface, method } => Declaration::InterfaceMethod {
                iface: *iface,
                method: *method,
            },
            Declaration::InterfaceOutputType { iface, ty } => Declaration::InterfaceOutputType {
                iface: *iface,
                ty: *ty,
            },
            Declaration::MemberFunction { f } => Declaration::MemberFunction { f: *f },
            Declaration::Enum(e) => Declaration::Enum(*e),
            Declaration::EnumVariant { e, variant } => Declaration::EnumVariant {
                e: *e,
                variant: *variant,
            },
            Declaration::Struct(sd) => Declaration::Struct(*sd),
            Declaration::Array => Declaration::Array,
            Declaration::Builtin(op) => Declaration::Builtin(*op),
            Declaration::BuiltinType(bt) => Declaration::BuiltinType(*bt),
            Declaration::Var(n) => Declaration::Var(*n),
            Declaration::Polytype(p) => Declaration::Polytype(*p),
        }
    }
}

impl Declaration {
    /// The name-level type key of a declaration that names a type. A
    /// declaration that names no type has none; an interface output type has
    /// no key yet, and may not be asked for one.
    pub fn into_type_key(self) -> (r: Option<TypeKey>)
        requires
            !(self matches Declaration::InterfaceOutputType { .. }),
        ensures
            r == match self {
                Declaration::Enum(e) => Some(TypeKey::TyApp(Nominal::Enum(e))),
                Declaration::Struct(sd) => Some(TypeKey::TyApp(Nominal::Struct(sd))),
                Declaration::Array => Some(TypeKey::TyApp(Nominal::Array)),
                Declaration::BuiltinType(bt) => Some(
                    match bt {
                        BuiltinType::Int => TypeKey::Int,
                        BuiltinType::Bool => TypeKey::Bool,
                        BuiltinType::Float => TypeKey::Float,
                        BuiltinType::Void => TypeKey::Void,
                        BuiltinType::Str => TypeKey::Str,
                        BuiltinType::Tuple(arity) => TypeKey::Tuple(arity),
                    },
                ),
                _ => None,
            },
    {
        match self {
            Declaration::FreeFunction(_)
            | Declaration::HostFunction(_)
            | Declaration::ForeignFunction { .. }
            | Declaration::InterfaceDef(_)
            | Declaration::InterfaceMethod { .. }
            | Declaration::MemberFunction { .. }
            | Declaration::Builtin(_)
            | Declaration::Var(_)
            | Declaration::Polytype(_)
            | Declaration::EnumVariant { .. } => None,
            Declaration::InterfaceOutputType { .. } => None,
            Declaration::Enum(e) => Some(TypeKey::TyApp(Nominal::Enum(e))),
            Declaration::Struct(sd) => Some(TypeKey::TyApp(Nominal::Struct(sd))),
            Declaration::Array => Some(TypeKey::TyApp(Nominal::Array)),
            Declaration::BuiltinType(bt) => Some(bt.to_type_key()),
        }
    }
}

/// First declaration bound to `name` in an association list.
pub open spec fn assoc_decl(entries: Seq<(String, Declaration)>, name: Seq<char>) -> Option<
    Declaration,
>
    decreases entries.len(),
{
    if entries.len() == 0 {
        None
    } else if entries[0].0@ == name {
        Some(entries[0].1)
    } else {
        assoc_decl(entries.drop_first(), name)
    }
}

/// First child namespace bound to `name` in an association list.
pub open spec fn assoc_ns(entries: Seq<(String, Namespace)>, name: Seq<char>) -> Option<Namespace>
    decreases entries.len(),
{
    if entries.len() == 0 {
        None
    } else if entries[0].0@ == name {
        Some(entries[0].1)
    } else {
        assoc_ns(entries.drop_first(), name)
    }
}

/// A node of the namespace tree: named declarations and named child
/// namespaces.
#[derive(Debug)]
pub struct Namespace {
    pub declarations: Vec<(String, Declaration)>,
    pub namespaces: Vec<(String, Namespace)>,
}

/// The declaration a dotted path resolves to: walk child namespaces through
/// all segments but the last, then look the last segment up among the
/// declarations.
pub open spec fn lookup_path(ns: Namespace, segs: Seq<Seq<char>>) -> Option<Declaration>
    decreases segs.len(),
{
    if segs.len() == 0 {
        None
    } else if segs.len() == 1 {
        assoc_decl(ns.declarations@, segs[0])
    } else {
        match assoc_ns(ns.namespaces@, segs[0]) {
            Some(child) => lookup_path(child, segs.drop_first()),
            None => None,
        }
    }
}

/// The segments of `s` split on `'.'` (an empty text gives one empty
/// segment, as the splitter of the standard library does).
pub open spec fn split_dots(s: Seq<char>) -> Seq<Seq<char>>
    decreases s.len(),
{
    if !s.contains('.') {
        seq![s]
    } else {
        let i = first_dot(s);
        if 0 <= i < s.len() {
            seq![s.take(i)] + split_dots(s.skip(i + 1))
        } else {
            seq![s]
        }
    }
}

/// Index of the first `'.'` in `s`.
pub open spec fn first_dot(s: Seq<char>) -> int {
    choose|i: int| 0 <= i < s.len() && s[i] == '.' && forall|j: int| 0 <= j < i ==> s[j] != '.'
}

pub proof fn lemma_first_dot(s: Seq<char>, w: int)
    requires
        0 <= w < s.len(),
        s[w] == '.',
        forall|j: int| 0 <= j < w ==> s[j] != '.',
    ensures
        first_dot(s) == w,
{
    let c = first_dot(s);
    assert(0 <= c < s.len() && s[c] == '.' && forall|j: int| 0 <= j < c ==> s[j] != '.') by {
        assert(0 <= w < s.len() && s[w] == '.' && forall|j: int| 0 <= j < w ==> s[j] != '.');
    }
    if c < w {
        assert(s[c] != '.');
    } else if w < c {
        assert(s[w] != '.');
    }
}

impl Namespace {
    /// An empty namespace.
    pub fn new() -> (r: Self)
        ensures
            r.declarations@.len() == 0,
            r.namespaces@.len() == 0,
    {
        Namespace { declarations: Vec::new(), namespaces: Vec::new() }
    }

    fn find_decl(&self, name: &str) -> (r: Option<&Declaration>)
        ensures
            match r {
                Some(d) => assoc_decl(self.declarations@, name@) == Some(*d),
                None => assoc_decl(self.declarations@, name@) is None,
            },
    {
        let owned = name.to_owned();
        let mut i: usize = 0;
        assert(self.declarations@.skip(0) =~= self.declarations@);
        while i < self.declarations.len()
            invariant
                i <= self.declarations@.len(),
                owned@ == name@,
                assoc_decl(self.declarations@, name@) == assoc_decl(
                    self.declarations@.skip(i as int),
                    name@,
                ),
            decreases self.declarations@.len() - i,
        {
            assert(self.declarations@.skip(i as int)[0] == self.declarations@[i as int]);
            if self.declarations[i].0 == owned {
                return Some(&self.declarations[i].1);
            }
            assert(self.declarations@.skip(i as int).drop_first() =~= self.declarations@.skip(
                i + 1,
            ));
            i += 1;
        }
        assert(self.declarations@.skip(i as int).len() == 0);
        None
    }

    fn find_ns(&self, name: &str) -> (r: Option<&Namespace>)
        ensures
            match r {
                Some(n) => assoc_ns(self.namespaces@, name@) == Some(*n),
                None => assoc_ns(self.namespaces@, name@) is None,
            },
    {
        let owned = name.to_owned();
        let mut i: usize = 0;
        assert(self.namespaces@.skip(0) =~= self.namespaces@);
        while i < self.namespaces.len()
            invariant
                i <= self.namespaces@.len(),
                owned@ == name@,
                assoc_ns(self.namespaces@, name@) == assoc_ns(
                    self.namespaces@.skip(i as int),
                    name@,
                ),
            decreases self.namespaces@.len() - i,
        {
            assert(self.namespaces@.skip(i as int)[0] == self.namespaces@[i as int]);
            if self.namespaces[i].0 == owned {
                return Some(&self.namespaces[i].1);
            }
            assert(self.namespaces@.skip(i as int).drop_first() =~= self.namespaces@.skip(i + 1));
            i += 1;
        }
        assert(self.namespaces@.skip(i as int).len() == 0);
        None
    }

    /// Splits `path` on dots and resolves the segments from this namespace:
    /// children for every segment but the last, then the declaration named
    /// by the last segment.
    pub fn get_declaration(&self, path: &str) -> (r: Option<Declaration>)
        ensures
            r == lookup_path(*self, split_dots(path@)),
    {
        let segments = split_path(path);
        let mut current: &Namespace = self;
        let mut i: usize = 0;
        let ghost segs = Seq::new(segments@.len() as nat, |k: int| segments@[k]@);
        proof {
            assert(segs =~~= split_dots(path@));
            assert(segs.skip(0) =~= segs);
        }
        while i < segments.len() - 1
            invariant
                segments@.len() >= 1,
                i < segments@.len(),
                segs == Seq::new(segments@.len() as nat, |k: int| segments@[k]@),
                segs == split_dots(path@),
                lookup_path(*self, segs) == lookup_path(*current, segs.skip(i as int)),
            decreases segments@.len() - i,
        {
            assert(segs.skip(i as int)[0] == segments@[i as int]@);
            match current.find_ns(segments[i].as_str()) {
                Some(child) => {
                    assert(segs.skip(i as int).drop_first() =~= segs.skip(i + 1));
                    current = child;
                },
                None => {
                    proof {
                        assert(segs.skip(i as int).len() >= 2);
                        assert(lookup_path(*current, segs.skip(i as int)) is None);
                    }
                    return None;
                },
            }
            i += 1;
        }
        assert(segs.skip(i as int).len() == 1);
        assert(segs.skip(i as int)[0] == segments@[i as int]@);
        match current.find_decl(segments[i].as_str()) {
            Some(d) => Some(d.clone()),
            None => None,
        }
    }

    /// Binds a declaration to a name; `false` (nothing inserted) when the
    /// name is already bound, which the caller reports as a clash.
    pub fn insert_declaration(&mut self, name: String, decl: Declaration) -> (r: bool)
        ensures
            r == (assoc_decl(old(self).declarations@, name@) is None),
            r ==> final(self).declarations@ == old(self).declarations@.push((name, decl)),
            !r ==> *final(self) == *old(self),
            final(self).namespaces@ == old(self).namespaces@,
    {
        if self.find_decl(name.as_str()).is_some() {
            return false;
        }
        self.declarations.push((name, decl));
        true
    }
}

/// Index of the first `'.'` of `s`, if any.
fn find_dot(s: &str) -> (r: Option<usize>)
    ensures
        match r {
            Some(i) => i < s@.len() && s@[i as int] == '.' && (forall|j: int|
                0 <= j < i ==> s@[j] != '.') && s@.contains('.'),
            None => !s@.contains('.'),
        },
{
    let n = s.unicode_len();
    let mut i: usize = 0;
    while i < n
        invariant
            i <= n,
            n == s@.len(),
            forall|j: int| 0 <= j < i ==> s@[j] != '.',
        decreases n - i,
    {
        if s.get_char(i) == '.' {
            assert(s@.contains('.')) by {
                assert(s@[i as int] == '.');
            }
            return Some(i);
        }
        i += 1;
    }
    assert(!s@.contains('.')) by {
        if s@.contains('.') {
            let w = choose|w: int| 0 <= w < s@.len() && s@[w] == '.';
        }
    }
    None
}

/// Splits a path on `'.'`, exactly as `split_dots` describes.
pub fn split_path(s: &str) -> (r: Vec<String>)
    ensures
        Seq::new(r@.len() as nat, |k: int| r@[k]@) == split_dots(s@),
        r@.len() >= 1,
    decreases s@.len(),
{
    match find_dot(s) {
        None => {
            let mut r: Vec<String> = Vec::new();
            r.push(s.to_owned());
            assert(Seq::new(r@.len() as nat, |k: int| r@[k]@) =~~= split_dots(s@));
            r
        },
        Some(i) => {
            proof {
                lemma_first_dot(s@, i as int);
            }
            let n = s.unicode_len();
            let head = s.substring_char(0, i).to_owned();
            let tail = s.substring_char(i + 1, n);
            assert(tail@ =~= s@.skip(i + 1));
            let mut rest = split_path(tail);
            let ghost rest_views = Seq::new(rest@.len() as nat, |k: int| rest@[k]@);
            rest.insert(0, head);
            proof {
                assert(head@ =~= s@.take(i as int));
                assert(Seq::new(rest@.len() as nat, |k: int| rest@[k]@) =~~= seq![
                    s@.take(i as int),
                ] + rest_views);
                assert(Seq::new(rest@.len() as nat, |k: int| rest@[k]@) =~~= split_dots(s@));
            }
            rest
        },
    }
}

/// A diagnostic of the analyzer, tied to the node it blames.
#[derive(Debug)]
pub enum StaticsError {
    UnresolvedIdentifier { node: AstNode },
    NameClash { name: String, node: AstNode },
    UnconstrainedUnifvar { prov: Prov },
    ConflictingUnifvar { prov: Prov },
    TypeConflict { node: AstNode },
    MemberAccessNeedsAnnotation { node: AstNode },
    NonexhaustiveMatch { node: AstNode, missing: Vec<DeconstructedPat> },
    RedundantArms { node: AstNode, redundant_arms: Vec<usize> },
}

/// The batch of diagnostics an analysis run surfaces on failure, with the
/// file database that renders them.
#[derive(Debug)]
pub struct ErrorSummary {
    pub files: FileDatabase,
    pub errors: Vec<StaticsError>,
}

/// Index of the first unification variable keyed by `p`, scanning the two
/// parallel tables from position `i` while both are in bounds.
pub open spec fn unifvar_lookup(provs: Seq<Prov>, vars: Seq<TypeVar>, p: Prov, i: int) -> Option<
    int,
>
    decreases provs.len() - i,
{
    if i < 0 || i >= provs.len() || i >= vars.len() {
        None
    } else if provs[i] == p {
        Some(i)
    } else {
        unifvar_lookup(provs, vars, p, i + 1)
    }
}

/// What the analyzer knows mid-run and hands to the translator afterwards.
pub struct StaticsContext {
    pub files: FileDatabase,
    pub root_namespace: Namespace,
    pub resolution_map: Vec<(u64, Declaration)>,
    pub member_functions: Vec<(TypeKey, String, Declaration)>,
    pub unifvar_provs: Vec<Prov>,
    pub unifvars: Vec<TypeVar>,
    pub constraints: Vec<Constraint>,
    pub host_funcs: Vec<String>,
    pub dylibs: Vec<String>,
    pub errors: Vec<StaticsError>,
}

impl StaticsContext {
    pub fn new(files: FileDatabase) -> (r: Self)
        ensures
            r.files == files,
            r.root_namespace.declarations@.len() == 0,
            r.root_namespace.namespaces@.len() == 0,
            r.resolution_map@.len() == 0,
            r.member_functions@.len() == 0,
            r.unifvar_provs@.len() == 0,
            r.unifvars@.len() == 0,
            r.constraints@.len() == 0,
            r.host_funcs@.len() == 0,
            r.dylibs@.len() == 0,
            r.errors@.len() == 0,
    {
        StaticsContext {
            files,
            root_namespace: Namespace::new(),
            resolution_map: Vec::new(),
            member_functions: Vec::new(),
            unifvar_provs: Vec::new(),
            unifvars: Vec::new(),
            constraints: Vec::new(),
            host_funcs: Vec::new(),
            dylibs: Vec::new(),
            errors: Vec::new(),
        }
    }

    /// The unification variable keyed by this provenance, if any.
    fn find_unifvar(&self, prov: Prov) -> (r: Option<&TypeVar>)
        ensures
            match r {
                Some(v) => unifvar_lookup(
                    self.unifvar_provs@,
                    self.unifvars@,
                    prov,
                    0,
                ) matches Some(ix) && self.unifvars@[ix] == *v,
                None => unifvar_lookup(self.unifvar_provs@, self.unifvars@, prov, 0) is None,
            },
    {
        let n = if self.unifvar_provs.len() < self.unifvars.len() {
            self.unifvar_provs.len()
        } else {
            self.unifvars.len()
        };
        let mut i: usize = 0;
        while i < n
            invariant
                i <= n,
                n <= self.unifvar_provs@.len(),
                n <= self.unifvars@.len(),
                n >= self.unifvar_provs@.len() || n >= self.unifvars@.len(),
                unifvar_lookup(self.unifvar_provs@, self.unifvars@, prov, 0) == unifvar_lookup(
                    self.unifvar_provs@,
                    self.unifvars@,
                    prov,
                    i as int,
                ),
            decreases n - i,
        {
            if self.unifvar_provs[i] == prov {
                return Some(&self.unifvars[i]);
            }
            i += 1;
        }
        None
    }

    /// The solved type of an AST node: the single potential left in the
    /// first unification variable keyed by the node, when there is such a
    /// variable and it is solved; nothing when the node has no variable or
    /// its variable is unconstrained or conflicted.
    pub fn solution_of_node(&self, node: AstNode) -> (r: Option<&PotentialType>)
        ensures
            ({
                let found = unifvar_lookup(
                    self.unifvar_provs@,
                    self.unifvars@,
                    Prov::Node(node.id),
                    0,
                );
                match r {
                    Some(p) => found matches Some(ix) && self.unifvars@[ix].potentials@ == seq![
                        *p,
                    ],
                    None => found matches Some(ix) ==> self.unifvars@[ix].potentials@.len() != 1,
                }
            }),
    {
        match self.find_unifvar(Prov::Node(node.id)) {
            Some(v) => match v.solution() {
                Some(p) => {
                    proof {
                        match unifvar_lookup(
                            self.unifvar_provs@,
                            self.unifvars@,
                            Prov::Node(node.id),
                            0,
                        ) {
                            Some(ix) => {
                                assert(self.unifvars@[ix].potentials@ =~= seq![*p]);
                            },
                            None => {
                                assert(false);
                            },
                        }
                    }
                    Some(p)
                },
                None => None,
            },
            None => None,
        }
    }

    /// The definition id of the interface of this name in the root
    /// namespace. The name must be bound to an interface; an unknown
    /// interface name is the caller's programming error.
    pub fn get_interface_declaration(&self, name: &str) -> (r: u32)
        requires
            assoc_decl(
                self.root_namespace.declarations@,
                name@,
            ) matches Some(d) && d matches Declaration::InterfaceDef(_),
        ensures
            assoc_decl(self.root_namespace.declarations@, name@) == Some(
                Declaration::InterfaceDef(r),
            ),
    {
        match self.root_namespace.find_decl(name) {
            Some(d) => match d {
                Declaration::InterfaceDef(i) => *i,
                _ => 0,
            },
            None => 0,
        }
    }
}

/// One `match` expression the analyzer checks: the node it sits at, the
/// enum path it scrutinises, and its arms in normal form.
#[derive(Debug)]
pub struct MatchAst {
    pub node: AstNode,
    pub enum_path: String,
    pub arms: Vec<DeconstructedPat>,
}

/// A declared item of a file: what declaration scanning puts in the
/// namespace.
#[derive(Debug)]
pub enum ItemAst {
    Func { name: String, node: AstNode },
    HostFunc { name: String, node: AstNode, arity: u16 },
    StructDef { name: String, node: AstNode, n_fields: u16 },
    EnumDef { name: String, node: AstNode, n_variants: u16 },
    InterfaceDef { name: String, node: AstNode },
}

/// The AST of one file, as the parser hands it in.
#[derive(Debug)]
pub struct FileAst {
    pub name: String,
    pub items: Vec<ItemAst>,
    pub matches: Vec<MatchAst>,
}

/// The number of variants of the enum with the given definition id, out of
/// the scanned declarations.
fn enum_variant_count(file_asts: &Vec<FileAst>, e: u32) -> (r: Option<u16>) {
    let mut counter: u32 = 0;
    let mut fi: usize = 0;
    while fi < file_asts.len()
        decreases file_asts@.len() - fi,
    {
        let items = &file_asts[fi].items;
        let mut ii: usize = 0;
        while ii < items.len()
            decreases items@.len() - ii,
        {
            match &items[ii] {
                ItemAst::EnumDef { n_variants, .. } => {
                    if counter == e {
                        return Some(*n_variants);
                    }
                    if counter < u32::MAX {
                        counter += 1;
                    }
                },
                _ => {},
            }
            ii += 1;
        }
        fi += 1;
    }
    None
}

/// Phase A: walk every file and populate the root namespace; a name bound
/// twice raises a `NameClash`.
pub fn scan_declarations(ctx: &mut StaticsContext, file_asts: &Vec<FileAst>)
    ensures
        final(ctx).files == old(ctx).files,
        final(ctx).resolution_map@ == old(ctx).resolution_map@,
        final(ctx).member_functions@ == old(ctx).member_functions@,
        final(ctx).unifvar_provs@ == old(ctx).unifvar_provs@,
        final(ctx).unifvars@ == old(ctx).unifvars@,
        final(ctx).constraints@ == old(ctx).constraints@,
        final(ctx).host_funcs@ == old(ctx).host_funcs@,
        final(ctx).dylibs@ == old(ctx).dylibs@,
{
    let mut func_counter: u32 = 0;
    let mut struct_counter: u32 = 0;
    let mut enum_counter: u32 = 0;
    let mut iface_counter: u32 = 0;
    let mut fi: usize = 0;
    while fi < file_asts.len()
        invariant
            ctx.files == old(ctx).files,
            ctx.resolution_map@ == old(ctx).resolution_map@,
            ctx.member_functions@ == old(ctx).member_functions@,
            ctx.unifvar_provs@ == old(ctx).unifvar_provs@,
            ctx.unifvars@ == old(ctx).unifvars@,
            ctx.constraints@ == old(ctx).constraints@,
            ctx.host_funcs@ == old(ctx).host_funcs@,
            ctx.dylibs@ == old(ctx).dylibs@,
        decreases file_asts@.len() - fi,
    {
        let items = &file_asts[fi].items;
        let mut ii: usize = 0;
        while ii < items.len()
            invariant
                ctx.files == old(ctx).files,
                ctx.resolution_map@ == old(ctx).resolution_map@,
                ctx.member_functions@ == old(ctx).member_functions@,
                ctx.unifvar_provs@ == old(ctx).unifvar_provs@,
                ctx.unifvars@ == old(ctx).unifvars@,
                ctx.constraints@ == old(ctx).constraints@,
                ctx.host_funcs@ == old(ctx).host_funcs@,
                ctx.dylibs@ == old(ctx).dylibs@,
            decreases items@.len() - ii,
        {
            let (name, node, decl): (&String, AstNode, Declaration) = match &items[ii] {
                ItemAst::Func { name, node } => {
                    let d = Declaration::FreeFunction(func_counter);
                    if func_counter < u32::MAX {
                        func_counter += 1;
                    }
                    (name, *node, d)
                },
                ItemAst::HostFunc { name, node, .. } => {
                    let d = Declaration::HostFunction(func_counter);
                    if func_counter < u32::MAX {
                        func_counter += 1;
                    }
                    (name, *node, d)
                },
                ItemAst::StructDef { name, node, .. } => {
                    let d = Declaration::Struct(struct_counter);
                    if struct_counter < u32::MAX {
                        struct_counter += 1;
                    }
                    (name, *node, d)
                },
                ItemAst::EnumDef { name, node, .. } => {
                    let d = Declaration::Enum(enum_counter);
                    if enum_counter < u32::MAX {
                        enum_counter += 1;
                    }
                    (name, *node, d)
                },
                ItemAst::InterfaceDef { name, node } => {
                    let d = Declaration::InterfaceDef(iface_counter);
                    if iface_counter < u32::MAX {
                        iface_counter += 1;
                    }
                    (name, *node, d)
                },
            };
            if !ctx.root_namespace.insert_declaration(name.clone(), decl) {
                ctx.errors.push(StaticsError::NameClash { name: name.clone(), node });
            }
            ii += 1;
        }
        fi += 1;
    }
}

/// Phase B: resolve the paths the checked matches scrutinise, recording
/// each resolution keyed by the node, and an `UnresolvedIdentifier` where a
/// path names nothing.
pub fn resolve(ctx: &mut StaticsContext, file_asts: &Vec<FileAst>)
    ensures
        final(ctx).files == old(ctx).files,
        final(ctx).root_namespace == old(ctx).root_namespace,
        final(ctx).member_functions@ == old(ctx).member_functions@,
        final(ctx).unifvar_provs@ == old(ctx).unifvar_provs@,
        final(ctx).unifvars@ == old(ctx).unifvars@,
        final(ctx).constraints@ == old(ctx).constraints@,
        final(ctx).host_funcs@ == old(ctx).host_funcs@,
        final(ctx).dylibs@ == old(ctx).dylibs@,
{
    let mut fi: usize = 0;
    while fi < file_asts.len()
        invariant
            ctx.files == old(ctx).files,
            ctx.root_namespace == old(ctx).root_namespace,
            ctx.member_functions@ == old(ctx).member_functions@,
            ctx.unifvar_provs@ == old(ctx).unifvar_provs@,
            ctx.unifvars@ == old(ctx).unifvars@,
            ctx.constraints@ == old(ctx).constraints@,
            ctx.host_funcs@ == old(ctx).host_funcs@,
            ctx.dylibs@ == old(ctx).dylibs@,
        decreases file_asts@.len() - fi,
    {
        let matches_list = &file_asts[fi].matches;
        let mut mi: usize = 0;
        while mi < matches_list.len()
            invariant
                ctx.files == old(ctx).files,
                ctx.root_namespace == old(ctx).root_namespace,
                ctx.member_functions@ == old(ctx).member_functions@,
                ctx.unifvar_provs@ == old(ctx).unifvar_provs@,
                ctx.unifvars@ == old(ctx).unifvars@,
                ctx.constraints@ == old(ctx).constraints@,
                ctx.host_funcs@ == old(ctx).host_funcs@,
                ctx.dylibs@ == old(ctx).dylibs@,
            decreases matches_list@.len() - mi,
        {
            let m = &matches_list[mi];
            match ctx.root_namespace.get_declaration(m.enum_path.as_str()) {
                Some(d) => {
                    ctx.resolution_map.push((m.node.id, d));
                },
                None => {
                    ctx.errors.push(StaticsError::UnresolvedIdentifier { node: m.node });
                },
            }
            mi += 1;
        }
        fi += 1;
    }
}

/// Phase D: check every `match` whose scrutinised path resolved to an enum
/// for exhaustiveness and usefulness.
pub fn check_pattern_exhaustiveness_and_usefulness(
    ctx: &mut StaticsContext,
    file_asts: &Vec<FileAst>,
)
    ensures
        final(ctx).files == old(ctx).files,
        final(ctx).root_namespace == old(ctx).root_namespace,
        final(ctx).resolution_map@ == old(ctx).resolution_map@,
        final(ctx).member_functions@ == old(ctx).member_functions@,
        final(ctx).unifvar_provs@ == old(ctx).unifvar_provs@,
        final(ctx).unifvars@ == old(ctx).unifvars@,
        final(ctx).constraints@ == old(ctx).constraints@,
        final(ctx).host_funcs@ == old(ctx).host_funcs@,
        final(ctx).dylibs@ == old(ctx).dylibs@,
{
    let mut fi: usize = 0;
    while fi < file_asts.len()
        invariant
            ctx.files == old(ctx).files,
            ctx.root_namespace == old(ctx).root_namespace,
            ctx.resolution_map@ == old(ctx).resolution_map@,
            ctx.member_functions@ == old(ctx).member_functions@,
            ctx.unifvar_provs@ == old(ctx).unifvar_provs@,
            ctx.unifvars@ == old(ctx).unifvars@,
            ctx.constraints@ == old(ctx).constraints@,
            ctx.host_funcs@ == old(ctx).host_funcs@,
            ctx.dylibs@ == old(ctx).dylibs@,
        decreases file_asts@.len() - fi,
    {
        let matches_list = &file_asts[fi].matches;
        let mut mi: usize = 0;
        while mi < matches_list.len()
            invariant
                ctx.files == old(ctx).files,
                ctx.root_namespace == old(ctx).root_namespace,
                ctx.resolution_map@ == old(ctx).resolution_map@,
                ctx.member_functions@ == old(ctx).member_functions@,
                ctx.unifvar_provs@ == old(ctx).unifvar_provs@,
                ctx.unifvars@ == old(ctx).unifvars@,
                ctx.constraints@ == old(ctx).constraints@,
                ctx.host_funcs@ == old(ctx).host_funcs@,
                ctx.dylibs@ == old(ctx).dylibs@,
            decreases matches_list@.len() - mi,
        {
            let m = &matches_list[mi];
            match ctx.root_namespace.get_declaration(m.enum_path.as_str()) {
                Some(Declaration::Enum(e)) => match enum_variant_count(file_asts, e) {
                    Some(n_variants) => {
                        let missing = uncovered_shapes(n_variants, &m.arms);
                        if missing.len() > 0 {
                            ctx.errors.push(
                                StaticsError::NonexhaustiveMatch { node: m.node, missing },
                            );
                        }
                        let redundant = crate::patterns::redundant_arms(n_variants, &m.arms);
                        if redundant.len() > 0 {
                            ctx.errors.push(
                                StaticsError::RedundantArms {
                                    node: m.node,
                                    redundant_arms: redundant,
                                },
                            );
                        }
                    },
                    None => {},
                },
                _ => {},
            }
            mi += 1;
        }
        fi += 1;
    }
}

/// The counts of potential types per variable, before solving.
pub open spec fn potential_counts(vars: Seq<TypeVar>) -> Seq<int> {
    Seq::new(vars.len(), |i: int| vars[i].potentials@.len() as int)
}

/// The diagnostics the flagging pass records for the first `i` variables:
/// a variable left with no potential is unconstrained when it never had
/// evidence, and conflicted when solving discarded all of it; one left with
/// several potentials is conflicted.
pub open spec fn flag_errors(
    provs: Seq<Prov>,
    pre_counts: Seq<int>,
    vars: Seq<TypeVar>,
    i: int,
) -> Seq<StaticsError>
    decreases i,
{
    if i <= 0 {
        Seq::empty()
    } else {
        let rest = flag_errors(provs, pre_counts, vars, i - 1);
        let k = i - 1;
        if k < provs.len() && k < vars.len() {
            let n = vars[k].potentials@.len();
            let pre = if k < pre_counts.len() {
                pre_counts[k]
            } else {
                0
            };
            if n == 0 && pre > 0 {
                rest.push(StaticsError::ConflictingUnifvar { prov: provs[k] })
            } else if n == 0 {
                rest.push(StaticsError::UnconstrainedUnifvar { prov: provs[k] })
            } else if n > 1 {
                rest.push(StaticsError::ConflictingUnifvar { prov: provs[k] })
            } else {
                rest
            }
        } else {
            rest
        }
    }
}

/// Phase C: solve the unification variables to a fixed point, then flag
/// every variable that ended with no potential left (unconstrained when it
/// had none to begin with, conflicting when solving emptied it) or with
/// several left (conflicting). The result says whether the fixed point was
/// reached.
pub fn solve_and_flag(ctx: &mut StaticsContext) -> (complete: bool)
    ensures
        complete ==> crate::typecheck::solved(final(ctx).unifvars@, final(ctx).constraints@),
        crate::typecheck::solved(old(ctx).unifvars@, old(ctx).constraints@) ==> complete
            && crate::typecheck::tables_equal(final(ctx).unifvars@, old(ctx).unifvars@),
        final(ctx).errors@ == old(ctx).errors@ + flag_errors(
            final(ctx).unifvar_provs@,
            potential_counts(old(ctx).unifvars@),
            final(ctx).unifvars@,
            final(ctx).unifvars@.len() as int,
        ),
        final(ctx).files == old(ctx).files,
        final(ctx).root_namespace == old(ctx).root_namespace,
        final(ctx).resolution_map@ == old(ctx).resolution_map@,
        final(ctx).member_functions@ == old(ctx).member_functions@,
        final(ctx).unifvar_provs@ == old(ctx).unifvar_provs@,
        final(ctx).constraints@ == old(ctx).constraints@,
        final(ctx).host_funcs@ == old(ctx).host_funcs@,
        final(ctx).dylibs@ == old(ctx).dylibs@,
{
    let ghost pre_counts = potential_counts(ctx.unifvars@);
    let mut counts: Vec<usize> = Vec::new();
    let mut c: usize = 0;
    while c < ctx.unifvars.len()
        invariant
            c <= ctx.unifvars@.len(),
            counts@.len() == c,
            pre_counts == potential_counts(ctx.unifvars@),
            forall|k: int| 0 <= k < c ==> #[trigger] counts@[k] as int == pre_counts[k],
            *ctx == *old(ctx),
        decreases ctx.unifvars@.len() - c,
    {
        counts.push(ctx.unifvars[c].potentials.len());
        c += 1;
    }
    let complete = solve_types(&mut ctx.unifvars, &ctx.constraints);
    let ghost solved_vars = ctx.unifvars@;
    let mut i: usize = 0;
    while i < ctx.unifvars.len()
        invariant
            i <= ctx.unifvars@.len(),
            ctx.unifvars@ == solved_vars,
            complete ==> crate::typecheck::solved(ctx.unifvars@, ctx.constraints@),
            crate::typecheck::solved(old(ctx).unifvars@, old(ctx).constraints@) ==> complete
                && crate::typecheck::tables_equal(ctx.unifvars@, old(ctx).unifvars@),
            pre_counts == potential_counts(old(ctx).unifvars@),
            forall|k: int|
                0 <= k < counts@.len() ==> #[trigger] counts@[k] as int == pre_counts[k],
            counts@.len() == old(ctx).unifvars@.len(),
            ctx.errors@ == old(ctx).errors@ + flag_errors(
                ctx.unifvar_provs@,
                pre_counts,
                ctx.unifvars@,
                i as int,
            ),
            ctx.files == old(ctx).files,
            ctx.root_namespace == old(ctx).root_namespace,
            ctx.resolution_map@ == old(ctx).resolution_map@,
            ctx.member_functions@ == old(ctx).member_functions@,
            ctx.unifvar_provs@ == old(ctx).unifvar_provs@,
            ctx.constraints@ == old(ctx).constraints@,
            ctx.host_funcs@ == old(ctx).host_funcs@,
            ctx.dylibs@ == old(ctx).dylibs@,
        decreases ctx.unifvars@.len() - i,
    {
        let ghost pre_errs = ctx.errors@;
        if i < ctx.unifvar_provs.len() {
            let prov = ctx.unifvar_provs[i];
            let n = ctx.unifvars[i].potentials.len();
            let pre: usize = if i < counts.len() {
                counts[i]
            } else {
                0
            };
            if n == 0 && pre > 0 {
                ctx.errors.push(StaticsError::ConflictingUnifvar { prov });
            } else if n == 0 {
                ctx.errors.push(StaticsError::UnconstrainedUnifvar { prov });
            } else if n > 1 {
                ctx.errors.push(StaticsError::ConflictingUnifvar { prov });
            }
        }
        i += 1;
    }
    complete
}

/// Surfaces the collected diagnostics: the analysis never aborts on the
/// first error, so this runs once at the end.
pub fn check_errors(ctx: StaticsContext) -> (r: Result<StaticsContext, ErrorSummary>)
    ensures
        ctx.errors@.len() == 0 <==> r is Ok,
        r matches Ok(c) ==> c == ctx,
        r matches Err(e) ==> e.errors@ == ctx.errors@ && e.errors@.len() > 0 && e.files
            == ctx.files,
{
    if ctx.errors.len() == 0 {
        Ok(ctx)
    } else {
        Err(ErrorSummary { files: ctx.files, errors: ctx.errors })
    }
}

/// Runs the analysis end to end: scan declarations, resolve, check the
/// matches, and surface whatever diagnostics were collected.
pub fn analyze(file_asts: &Vec<FileAst>, files: FileDatabase) -> (r: Result<
    StaticsContext,
    ErrorSummary,
>)
    ensures
        r matches Ok(c) ==> c.errors@.len() == 0,
        r matches Err(e) ==> e.errors@.len() > 0 && e.files == files,
{
    let mut ctx = StaticsContext::new(files);
    scan_declarations(&mut ctx, file_asts);
    resolve(&mut ctx, file_asts);
    let _complete = solve_and_flag(&mut ctx);
    check_pattern_exhaustiveness_and_usefulness(&mut ctx, file_asts);
    check_errors(ctx)
}

} // verus!
