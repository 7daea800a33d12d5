use next_fast::config::Config;
use next_fast::invocation::{
    add_dependencies_invocation, generate_client_invocation, init_components_invocation,
    init_schema_invocation, probe_invocation, scaffold_invocation,
};

fn config(name: &str, flags: [bool; 5]) -> Config {
    Config {
        project_name: name.to_string(),
        typescript: flags[0],
        tailwind: flags[1],
        eslint: flags[2],
        app: flags[3],
        skip_install: flags[4],
    }
}

fn count(args: &[String], word: &str) -> usize {
    args.iter().filter(|arg| arg.as_str() == word).count()
}

#[test]
fn default_configuration_has_every_option_on() {
    let made = Config::new("my-app".to_string());
    assert_eq!(made, config("my-app", [true, true, true, true, false]));
}

#[test]
fn scaffold_with_defaults() {
    let invocation = scaffold_invocation(&Config::new("my-app".to_string()));
    assert_eq!(invocation.program, "bun");
    assert_eq!(
        invocation.args,
        vec!["create", "next-app", "my-app", "--typescript", "--tailwind", "--eslint", "--app"]
    );
}

#[test]
fn scaffold_with_everything_off() {
    let invocation = scaffold_invocation(&config("shop", [false, false, false, false, false]));
    assert_eq!(invocation.program, "bun");
    assert_eq!(
        invocation.args,
        vec![
            "create",
            "next-app",
            "shop",
            "--javascript",
            "--no-tailwind",
            "--no-eslint",
            "--no-app"
        ]
    );
}

#[test]
fn scaffold_without_typescript_asks_for_javascript() {
    let invocation = scaffold_invocation(&config("my-app", [false, true, true, true, false]));
    assert_eq!(count(&invocation.args, "--javascript"), 1);
    assert_eq!(count(&invocation.args, "--typescript"), 0);
    assert_eq!(
        invocation.args,
        vec!["create", "next-app", "my-app", "--javascript", "--tailwind", "--eslint", "--app"]
    );
}

#[test]
fn scaffold_skipping_the_prompt_says_so_last() {
    let invocation = scaffold_invocation(&config("my-app", [true, true, true, true, true]));
    assert_eq!(
        invocation.args,
        vec![
            "create",
            "next-app",
            "my-app",
            "--typescript",
            "--tailwind",
            "--eslint",
            "--app",
            "--skip-install"
        ]
    );
    let without = scaffold_invocation(&config("my-app", [true, true, true, true, false]));
    assert_eq!(count(&without.args, "--skip-install"), 0);
}

#[test]
fn every_combination_has_one_switch_of_each_pair() {
    let pairs = [
        ("--typescript", "--javascript"),
        ("--tailwind", "--no-tailwind"),
        ("--eslint", "--no-eslint"),
        ("--app", "--no-app"),
    ];
    for bits in 0..32u32 {
        let flags = [bits & 1 != 0, bits & 2 != 0, bits & 4 != 0, bits & 8 != 0, bits & 16 != 0];
        let invocation = scaffold_invocation(&config("demo", flags));
        for (which, (on, off)) in pairs.iter().enumerate() {
            let (chosen, other) = if flags[which] { (on, off) } else { (off, on) };
            assert_eq!(count(&invocation.args, chosen), 1, "{:?}", invocation.args);
            assert_eq!(count(&invocation.args, other), 0, "{:?}", invocation.args);
        }
        assert_eq!(count(&invocation.args, "--skip-install"), usize::from(flags[4]));
        assert_eq!(invocation.args.len(), 7 + usize::from(flags[4]));
        assert_eq!(&invocation.args[..3], ["create", "next-app", "demo"]);
    }
}

#[test]
fn project_named_like_a_switch_stands_beside_the_switches() {
    let invocation =
        scaffold_invocation(&config("--javascript", [true, true, true, true, false]));
    assert_eq!(invocation.args[2], "--javascript");
    assert_eq!(invocation.args[3], "--typescript");
    assert_eq!(count(&invocation.args, "--javascript"), 1);
    assert_eq!(count(&invocation.args, "--typescript"), 1);
}

#[test]
fn empty_project_name_is_passed_on() {
    let invocation = scaffold_invocation(&Config::new(String::new()));
    assert_eq!(invocation.args.len(), 7);
    assert_eq!(invocation.args[2], "");
}

#[test]
fn probe_asks_for_the_version() {
    let invocation = probe_invocation();
    assert_eq!(invocation.program, "bun");
    assert_eq!(invocation.args, vec!["--version"]);
}

#[test]
fn toolkit_commands() {
    let add = add_dependencies_invocation();
    assert_eq!(add.program, "bun");
    assert_eq!(add.args, vec!["add", "prisma", "@prisma/client"]);
    let init = init_schema_invocation();
    assert_eq!(init.program, "bunx");
    assert_eq!(init.args, vec!["prisma", "init", "--datasource-provider", "sqlite"]);
    let generate = generate_client_invocation();
    assert_eq!(generate.program, "bunx");
    assert_eq!(generate.args, vec!["prisma", "generate"]);
}

#[test]
fn component_library_command() {
    let invocation = init_components_invocation();
    assert_eq!(invocation.program, "bunx");
    assert_eq!(invocation.args, vec!["shadcn@latest", "init"]);
}
