use ocomp::config::{BuildConfig, Config};
use ocomp::dispatch::{dispatch_result, BuildFailure, BuildResult, ProcessOutcome};
use ocomp::routes::{
    build_response, response_text, route_path, route_table, upload_failure_response, Handler,
    Method, USAGE_MESSAGE,
};
use ocomp::upload::{UploadError, UploadSession};
use ocomp::workspace::{new_build_directory_path, set_upload_dir, UploadDir};

fn config(targets: &[(&str, &str, &str)]) -> Config {
    let sections = targets
        .iter()
        .map(|(n, b, o)| (n.to_string(), BuildConfig { build: b.to_string(), output: o.to_string() }))
        .collect();
    Config::from_sections("1.0.0".to_string(), sections).expect("unique names")
}

#[test]
fn two_routes_per_target_each_with_own_command() {
    let c = config(&[("rust", "cargo build --release", "target/release/*.exe"), ("go", "go build", "app")]);
    let t = route_table(&c);
    assert_eq!(t.len(), 4);
    assert_eq!(t[0].path, "/rust");
    assert_eq!(t[0].method, Method::Post);
    assert_eq!(
        t[0].handler,
        Handler::Build {
            command: "cargo build --release".to_string(),
            output: "target/release/*.exe".to_string()
        }
    );
    assert_eq!(t[1].path, "/rust");
    assert_eq!(t[1].method, Method::Get);
    assert_eq!(t[1].handler, Handler::Usage);
    assert_eq!(t[2].path, "/go");
    assert_eq!(t[2].handler, Handler::Build { command: "go build".to_string(), output: "app".to_string() });
    assert_eq!(t[3].path, "/go");
    assert_eq!(t[3].method, Method::Get);
}

#[test]
fn empty_config_has_no_routes() {
    assert!(route_table(&config(&[])).is_empty());
    assert_eq!(route_path("rust"), "/rust");
    assert_eq!(USAGE_MESSAGE, "Please use HTTP POST with a source file to build");
}

#[test]
fn response_texts() {
    assert_eq!(response_text(&Ok("done".to_string())), "Build success: \ndone");
    assert_eq!(response_text(&Err("bad".to_string())), "Build failed: \nbad");
    assert_eq!(upload_failure_response(&UploadError::NoFileUploaded), "Build failed: \nNo file uploaded");
    assert_eq!(
        build_response(&BuildResult::Failure { failure: BuildFailure::NoArtifact }),
        "Build failed: \nNo build output matches the output pattern"
    );
}

#[test]
fn rust_target_build_flow() {
    let c = config(&[("rust", "cargo build --release", "target/release/*.exe")]);
    let t = route_table(&c);
    let (command, output) = match &t[0].handler {
        Handler::Build { command, output } => (command.clone(), output.clone()),
        Handler::Usage => panic!("POST route must build"),
    };
    assert_eq!(t[0].path, "/rust");
    assert_eq!(command, "cargo build --release");

    let mut state = UploadDir::new();
    set_upload_dir(&mut state, "/up".to_string());
    let workspace = new_build_directory_path(&state);
    assert!(workspace.starts_with("/up/build-"));
    let mut session = UploadSession::new(workspace.clone());
    let w = session
        .receive_field(Some("main.rs".to_string()), b"fn main(){}".to_vec())
        .expect("plain name");
    assert_eq!(w.path, format!("{}/main.rs", workspace));
    assert_eq!(w.bytes, b"fn main(){}".to_vec());
    assert_eq!(session.finish(), Ok(vec![("main.rs".to_string(), 11)]));

    let files = vec!["main.rs".to_string(), "target/release/main.exe".to_string()];
    let ok = dispatch_result(
        ProcessOutcome::Exited { code: Some(0), output: "Finished".to_string() },
        &workspace,
        &output,
        &files,
    );
    assert_eq!(ok, BuildResult::Success { artifact: format!("{}/target/release/main.exe", workspace) });
    assert_eq!(build_response(&ok), format!("Build success: \n{}/target/release/main.exe", workspace));

    let failed = dispatch_result(
        ProcessOutcome::Exited { code: Some(101), output: "error: expected item".to_string() },
        &workspace,
        &output,
        &files,
    );
    assert_eq!(build_response(&failed), "Build failed: \nBuild command failed with exit code 101:\nerror: expected item");
}
