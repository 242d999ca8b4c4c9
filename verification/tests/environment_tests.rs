use openchamber_supervisor::assets::{asset_candidates, select_asset_dir};
use openchamber_supervisor::environment::build_environment;
use openchamber_supervisor::errors::SupervisorError;

#[test]
fn environment_args_pass_the_port() {
    let env = build_environment(3000, "/tmp/dist", None, None);
    let args: Vec<&str> = env.args.iter().map(|a| a.as_str()).collect();
    assert_eq!(args, vec!["--port", "3000"]);
}

#[test]
fn environment_variables_complete_and_ordered() {
    let home = "/home/u".to_string();
    let inherited = "/usr/games".to_string();
    let env = build_environment(3000, "/tmp/dist", Some(&home), Some(&inherited));
    let vars: Vec<(&str, &str)> = env
        .vars
        .iter()
        .map(|v| (v.name.as_str(), v.value.as_str()))
        .collect();
    assert_eq!(
        vars,
        vec![
            ("OPENCHAMBER_HOST", "127.0.0.1"),
            ("OPENCHAMBER_DIST_DIR", "/tmp/dist"),
            (
                "PATH",
                "/opt/homebrew/bin:/usr/local/bin:/usr/bin:/bin:/usr/sbin:/sbin:\
                 /home/u/.local/bin:/home/u/.bun/bin:/usr/games"
            ),
            ("NO_PROXY", "localhost,127.0.0.1"),
            ("no_proxy", "localhost,127.0.0.1"),
        ]
    );
}

#[test]
fn environment_path_without_home_or_inherited() {
    let env = build_environment(1, "d", None, None);
    assert_eq!(
        env.vars[2].value,
        "/opt/homebrew/bin:/usr/local/bin:/usr/bin:/bin:/usr/sbin:/sbin"
    );
}

#[test]
fn environment_path_skips_empty_home_and_path() {
    let home = String::new();
    let inherited = String::new();
    let env = build_environment(1, "d", Some(&home), Some(&inherited));
    assert_eq!(
        env.vars[2].value,
        "/opt/homebrew/bin:/usr/local/bin:/usr/bin:/bin:/usr/sbin:/sbin"
    );
}

#[test]
fn environment_names_are_unique() {
    let env = build_environment(9, "d", None, None);
    for i in 0..env.vars.len() {
        for j in (i + 1)..env.vars.len() {
            assert_ne!(env.vars[i].name, env.vars[j].name);
        }
    }
}

#[test]
fn asset_candidates_are_fixed() {
    let c = asset_candidates();
    let views: Vec<&str> = c.iter().map(|s| s.as_str()).collect();
    assert_eq!(views, vec!["web-dist", "resources/web-dist"]);
}

#[test]
fn asset_selection_takes_first_match() {
    assert_eq!(select_asset_dir(&vec![true, true]), Ok(0));
    assert_eq!(select_asset_dir(&vec![false, true]), Ok(1));
}

#[test]
fn asset_selection_fails_when_none_match() {
    assert_eq!(
        select_asset_dir(&vec![false, false]),
        Err(SupervisorError::AssetsMissing)
    );
    assert_eq!(select_asset_dir(&vec![]), Err(SupervisorError::AssetsMissing));
}
