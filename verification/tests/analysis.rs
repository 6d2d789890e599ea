use eon_core::builtin::{BuiltinOperation, BuiltinType};
use eon_core::patterns::{uncovered_shapes, redundant_arms, DeconstructedPat};
use eon_core::statics::{
    analyze, AstNode, Declaration, FileAst, FileData, FileDatabase, ItemAst, Location, MatchAst,
    Namespace, StaticsContext, StaticsError,
};
use eon_core::typecheck::{solve_types, Constraint, Nominal, PotentialType, Reason, Ty, TypeKey, TypeVar};

fn node(id: u64) -> AstNode {
    AstNode { id, location: Location { file_id: 0, start: 0, end: 1 } }
}

#[test]
fn basic() {
    let s = &mut String::new();
    s.push_str(&format!("{}, {}, {}", "text", 123, 4.56));
    assert_eq!(s, "text, 123, 4.56");
}

#[test]
fn builtin_names_are_snake_case() {
    assert_eq!(BuiltinOperation::AddInt.name(), "add_int");
    assert_eq!(
        BuiltinOperation::LessThanOrEqualInt.name(),
        "less_than_or_equal_int"
    );
    assert_eq!(BuiltinOperation::IntToString.name(), "int_to_string");
    assert_eq!(BuiltinOperation::ArrayPush.name(), "array_push");
    assert_eq!(BuiltinOperation::Newline.name(), "newline");
}

#[test]
fn builtin_enumerate_lists_all_operations() {
    let all = BuiltinOperation::enumerate();
    assert_eq!(all.len(), 32);
    assert!(matches!(all[0], BuiltinOperation::AddInt));
    assert!(matches!(all[31], BuiltinOperation::Newline));
}

#[test]
fn builtin_type_signatures() {
    let sig = BuiltinOperation::AddInt.type_signature();
    assert_eq!(sig.potentials.len(), 1);
    match &sig.potentials[0] {
        PotentialType::Func(f) => {
            assert_eq!(f.params.len(), 2);
            assert!(matches!(f.params[0], Ty::Int));
            assert!(matches!(f.params[1], Ty::Int));
            assert!(matches!(f.ret, Ty::Int));
        }
        other => panic!("expected a function signature, got {:?}", other),
    }
    let sig = BuiltinOperation::IntToString.type_signature();
    match &sig.potentials[0] {
        PotentialType::Func(f) => {
            assert!(matches!(f.params[0], Ty::Int));
            assert!(matches!(f.ret, Ty::Str));
        }
        other => panic!("expected a function signature, got {:?}", other),
    }
    let sig = BuiltinOperation::Newline.type_signature();
    assert!(matches!(sig.potentials[0], PotentialType::Atom(Ty::Str)));
}

#[test]
fn builtin_type_names_and_keys() {
    assert_eq!(BuiltinType::Int.name(), "int");
    assert_eq!(BuiltinType::Str.name(), "string");
    assert_eq!(BuiltinType::Tuple(3).name(), "tuple");
    assert!(matches!(BuiltinType::Int.to_type_key(), TypeKey::Int));
    assert!(matches!(BuiltinType::Tuple(3).to_type_key(), TypeKey::Tuple(3)));
}

#[test]
fn into_type_key_maps_type_declarations_only() {
    assert!(matches!(
        Declaration::Enum(4).into_type_key(),
        Some(TypeKey::TyApp(Nominal::Enum(4)))
    ));
    assert!(matches!(
        Declaration::Struct(2).into_type_key(),
        Some(TypeKey::TyApp(Nominal::Struct(2)))
    ));
    assert!(matches!(
        Declaration::Array.into_type_key(),
        Some(TypeKey::TyApp(Nominal::Array))
    ));
    assert!(Declaration::FreeFunction(0).into_type_key().is_none());
    assert!(Declaration::Builtin(BuiltinOperation::AddInt).into_type_key().is_none());
}

#[test]
fn namespace_resolves_dotted_paths() {
    let mut child = Namespace::new();
    assert!(child.insert_declaration(String::from("get_time"), Declaration::FreeFunction(1)));
    let mut root = Namespace::new();
    assert!(root.insert_declaration(String::from("main"), Declaration::FreeFunction(0)));
    root.namespaces.push((String::from("time"), child));

    assert!(matches!(
        root.get_declaration("main"),
        Some(Declaration::FreeFunction(0))
    ));
    assert!(matches!(
        root.get_declaration("time.get_time"),
        Some(Declaration::FreeFunction(1))
    ));
    assert!(root.get_declaration("time.sleep").is_none());
    assert!(root.get_declaration("os.fread").is_none());
}

#[test]
fn namespace_rejects_redeclaration() {
    let mut root = Namespace::new();
    assert!(root.insert_declaration(String::from("f"), Declaration::FreeFunction(0)));
    assert!(!root.insert_declaration(String::from("f"), Declaration::FreeFunction(1)));
}

#[test]
fn get_interface_declaration_finds_the_interface() {
    let files = FileDatabase { files: Vec::new() };
    let mut ctx = StaticsContext::new(files);
    assert!(ctx
        .root_namespace
        .insert_declaration(String::from("ToStr"), Declaration::InterfaceDef(5)));
    assert_eq!(ctx.get_interface_declaration("ToStr"), 5);
}

#[test]
fn nonexhaustive_match_is_reported_with_the_missing_shape() {
    // match Some(1) { Some(x) => x } over a two-variant enum: the None shape
    // (tag 1) is missing, and the analysis fails with exit-worthy errors.
    let files = FileDatabase {
        files: vec![FileData::new(
            String::from("main.en"),
            String::from("main.en"),
            String::from("match Some(1) { Some(x) => x }"),
        )],
    };
    let file_asts = vec![FileAst {
        name: String::from("main"),
        items: vec![ItemAst::EnumDef { name: String::from("Option"), node: node(1), n_variants: 2 }],
        matches: vec![MatchAst {
            node: node(2),
            enum_path: String::from("Option"),
            arms: vec![DeconstructedPat::Variant(0)],
        }],
    }];
    let result = analyze(&file_asts, files);
    let summary = result.err().expect("analysis must fail");
    assert_eq!(summary.errors.len(), 1);
    match &summary.errors[0] {
        StaticsError::NonexhaustiveMatch { missing, .. } => {
            assert_eq!(missing.len(), 1);
            assert!(matches!(missing[0], DeconstructedPat::Variant(1)));
        }
        other => panic!("expected a nonexhaustive match, got {:?}", other),
    }
}

#[test]
fn exhaustive_match_passes_analysis() {
    let files = FileDatabase { files: Vec::new() };
    let file_asts = vec![FileAst {
        name: String::from("main"),
        items: vec![ItemAst::EnumDef { name: String::from("Option"), node: node(1), n_variants: 2 }],
        matches: vec![MatchAst {
            node: node(2),
            enum_path: String::from("Option"),
            arms: vec![DeconstructedPat::Variant(0), DeconstructedPat::Variant(1)],
        }],
    }];
    assert!(analyze(&file_asts, files).is_ok());
}

#[test]
fn unresolved_scrutinee_is_reported() {
    let files = FileDatabase { files: Vec::new() };
    let file_asts = vec![FileAst {
        name: String::from("main"),
        items: Vec::new(),
        matches: vec![MatchAst {
            node: node(2),
            enum_path: String::from("Missing"),
            arms: vec![DeconstructedPat::Wild],
        }],
    }];
    let summary = analyze(&file_asts, files).err().expect("analysis must fail");
    assert!(matches!(summary.errors[0], StaticsError::UnresolvedIdentifier { .. }));
}

#[test]
fn name_clash_is_reported() {
    let files = FileDatabase { files: Vec::new() };
    let file_asts = vec![FileAst {
        name: String::from("main"),
        items: vec![
            ItemAst::Func { name: String::from("f"), node: node(1) },
            ItemAst::Func { name: String::from("f"), node: node(2) },
        ],
        matches: Vec::new(),
    }];
    let summary = analyze(&file_asts, files).err().expect("analysis must fail");
    assert!(matches!(summary.errors[0], StaticsError::NameClash { .. }));
}

#[test]
fn adding_an_arm_keeps_a_match_exhaustive() {
    let mut arms = vec![DeconstructedPat::Variant(0), DeconstructedPat::Variant(1)];
    assert!(uncovered_shapes(2, &arms).is_empty());
    arms.push(DeconstructedPat::Variant(0));
    assert!(uncovered_shapes(2, &arms).is_empty());
    arms.push(DeconstructedPat::Wild);
    assert!(uncovered_shapes(2, &arms).is_empty());
}

#[test]
fn wildcard_covers_everything_and_later_arms_are_redundant() {
    let arms = vec![DeconstructedPat::Wild, DeconstructedPat::Variant(0)];
    assert!(uncovered_shapes(4, &arms).is_empty());
    let redundant = redundant_arms(4, &arms);
    assert_eq!(redundant, vec![1]);
}

#[test]
fn solution_of_node_requires_a_single_potential() {
    let files = FileDatabase { files: Vec::new() };
    let mut ctx = StaticsContext::new(files);
    let n = node(9);
    assert!(ctx.solution_of_node(n).is_none());
    ctx.unifvar_provs.push(eon_core::typecheck::Prov::Node(9));
    ctx.unifvars.push(eon_core::typecheck::TypeVar::make_int(
        eon_core::typecheck::Reason::Node(9),
    ));
    match ctx.solution_of_node(n) {
        Some(PotentialType::Atom(Ty::Int)) => {}
        other => panic!("expected the int solution, got {:?}", other),
    }
}

#[test]
fn file_and_range_come_from_the_node() {
    let n = AstNode { id: 3, location: Location { file_id: 7, start: 11, end: 19 } };
    assert_eq!(n.get_file_and_range(), (7, 11, 19));
}

#[test]
fn solving_merges_evidence_and_is_idempotent() {
    let mut vars = vec![
        TypeVar { potentials: vec![PotentialType::Atom(Ty::Int)], reasons: vec![Reason::Node(1)] },
        TypeVar {
            potentials: vec![PotentialType::Atom(Ty::Int), PotentialType::Atom(Ty::Bool)],
            reasons: vec![Reason::Node(2)],
        },
    ];
    let constraints = vec![Constraint { a: 0, b: 1, reason: Reason::Node(3) }];
    assert!(solve_types(&mut vars, &constraints));
    assert_eq!(vars[0].potentials.len(), 1);
    assert_eq!(vars[1].potentials.len(), 1);
    assert!(matches!(vars[1].potentials[0], PotentialType::Atom(Ty::Int)));

    // Re-running the solver on the already-solved table changes nothing.
    assert!(solve_types(&mut vars, &constraints));
    assert_eq!(vars[0].potentials.len(), 1);
    assert!(matches!(vars[0].potentials[0], PotentialType::Atom(Ty::Int)));
    assert!(matches!(vars[1].potentials[0], PotentialType::Atom(Ty::Int)));
}

#[test]
fn conflicting_evidence_empties_a_variable() {
    let mut vars = vec![
        TypeVar { potentials: vec![PotentialType::Atom(Ty::Int)], reasons: vec![Reason::Node(1)] },
        TypeVar { potentials: vec![PotentialType::Atom(Ty::Bool)], reasons: vec![Reason::Node(2)] },
    ];
    let constraints = vec![Constraint { a: 0, b: 1, reason: Reason::Node(3) }];
    assert!(solve_types(&mut vars, &constraints));
    assert_eq!(vars[0].potentials.len(), 0);
    assert_eq!(vars[1].potentials.len(), 0);
}
