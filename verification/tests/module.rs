use imp_core::module::{make_module, ImpFunction, ModuleDef, ModuleFunction};

fn expected() -> Vec<(&'static str, ImpFunction)> {
    vec![
        ("extension_suffixes", ImpFunction::ExtensionSuffixes),
        ("acquire_lock", ImpFunction::AcquireLock),
        ("release_lock", ImpFunction::ReleaseLock),
        ("lock_held", ImpFunction::LockHeld),
        ("is_builtin", ImpFunction::IsBuiltin),
        ("is_frozen", ImpFunction::IsFrozen),
        ("create_builtin", ImpFunction::CreateBuiltin),
        ("exec_builtin", ImpFunction::ExecBuiltin),
        ("get_frozen_object", ImpFunction::GetFrozenObject),
        ("init_frozen", ImpFunction::InitFrozen),
        ("is_frozen_package", ImpFunction::IsFrozenPackage),
        ("_fix_co_filename", ImpFunction::FixCoFilename),
        ("source_hash", ImpFunction::SourceHash),
    ]
}

#[test]
fn module_is_named_imp() {
    assert_eq!(make_module(&()).name, "_imp");
}

#[test]
fn module_lists_every_function_in_order() {
    let module = make_module(&7u32);
    let listed: Vec<(&str, ImpFunction)> =
        module.functions.iter().map(|f| (f.name.as_str(), f.function)).collect();
    assert_eq!(listed, expected());
}

#[test]
fn every_function_is_found_under_its_name() {
    let module = make_module(&());
    for (name, function) in expected() {
        assert_eq!(module.function(name), Some(function));
        assert_eq!(function.name(), name);
    }
}

#[test]
fn hooks_keep_their_names() {
    let module = make_module(&());
    assert_eq!(module.function("_fix_co_filename"), Some(ImpFunction::FixCoFilename));
    assert_eq!(module.function("source_hash"), Some(ImpFunction::SourceHash));
    assert_eq!(module.function("exec_builtin"), Some(ImpFunction::ExecBuiltin));
    assert_eq!(module.function("extension_suffixes"), Some(ImpFunction::ExtensionSuffixes));
}

#[test]
fn unknown_names_are_not_found() {
    let module = make_module(&());
    assert_eq!(module.function("fix_co_filename"), None);
    assert_eq!(module.function(""), None);
    assert_eq!(module.function("Acquire_Lock"), None);
    assert_eq!(module.function("acquire_lock "), None);
    assert_eq!(module.function("_imp"), None);
}

#[test]
fn all_functions_in_order() {
    let all = ImpFunction::all();
    let wanted: Vec<ImpFunction> = expected().into_iter().map(|(_, f)| f).collect();
    assert_eq!(all, wanted);
}

#[test]
fn lookup_takes_the_first_of_two_equal_names() {
    let module = ModuleDef {
        name: "m".to_string(),
        functions: vec![
            ModuleFunction { name: "f".to_string(), function: ImpFunction::IsFrozen },
            ModuleFunction { name: "g".to_string(), function: ImpFunction::LockHeld },
            ModuleFunction { name: "f".to_string(), function: ImpFunction::IsBuiltin },
        ],
    };
    assert_eq!(module.function("f"), Some(ImpFunction::IsFrozen));
    assert_eq!(module.function("g"), Some(ImpFunction::LockHeld));
    assert_eq!(module.function("h"), None);
}

#[test]
fn module_clone_is_equal() {
    let module = make_module(&());
    assert_eq!(module.clone(), module);
}
