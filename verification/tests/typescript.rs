use asset_loaders::loaders::typescript::load;
use asset_loaders::loaders::typescript::Invocation;

#[test]
fn one_shot_compiler_invocation() {
    let invocation = load(false);
    assert_eq!(
        invocation,
        Invocation { program: String::from("pnpm"), arguments: vec![String::from("tsc")] }
    );
}

#[test]
fn watching_compiler_invocation() {
    let invocation = load(true);
    assert_eq!(invocation.program, "pnpm");
    assert_eq!(invocation.arguments, vec!["tsc", "--watch", "--preserveWatchOutput"]);
}
