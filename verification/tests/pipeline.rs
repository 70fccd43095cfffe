use yadt::capture::capture_stream;
use yadt::errors::Stage;
use yadt::packages::Config;
use yadt::pipe::pipe_transfer;
use yadt::stages::{
    acquire_build_args, acquisition_step, layered_build_args, recipe_text, run_args, AcquireStep,
    BuildTarget,
};

fn strings(v: &[&str]) -> Vec<String> {
    v.iter().map(|s| s.to_string()).collect()
}

#[test]
fn reference_passes_through_unchanged() {
    let step = acquisition_step(BuildTarget::FromReference(
        "docker.io/library/ubuntu:latest".to_string(),
    ));
    match step {
        AcquireStep::Done(name) => assert_eq!(name, "docker.io/library/ubuntu:latest"),
        AcquireStep::NeedBuild(_) => panic!("a reference target must not ask for a build"),
    }
}

#[test]
fn recipe_target_asks_for_a_build() {
    let step = acquisition_step(BuildTarget::FromRecipe("./Containerfile".to_string()));
    match step {
        AcquireStep::Done(_) => panic!("a recipe target must ask for a build"),
        AcquireStep::NeedBuild(path) => assert_eq!(path, "./Containerfile"),
    }
}

#[test]
fn acquisition_build_arguments() {
    let args = acquire_build_args(&"/home/user/Containerfile".to_string());
    assert_eq!(args, strings(&["build", "-f", "/home/user/Containerfile"]));
}

#[test]
fn layered_build_arguments() {
    let args = layered_build_args(
        &"docker.io/nixos/nix:latest".to_string(),
        &"docker.io/library/ubuntu:latest".to_string(),
        &"nixpkgs#bash nixpkgs#git".to_string(),
    );
    assert_eq!(
        args,
        strings(&[
            "build",
            "-f",
            "-",
            "--build-arg",
            "NIX_IMAGE=docker.io/nixos/nix:latest",
            "--build-arg",
            "DEV_IMAGE=docker.io/library/ubuntu:latest",
            "--build-arg",
            "PACKAGES_STRING=nixpkgs#bash nixpkgs#git",
        ])
    );
}

#[test]
fn run_arguments() {
    let args = run_args(&"sha256:abc".to_string(), &"/home/user/project".to_string());
    assert_eq!(
        args,
        strings(&[
            "run",
            "--rm",
            "--tty",
            "--interactive",
            "--volume",
            "/home/user/project:/workspace:rw",
            "--workdir",
            "/workspace",
            "--userns",
            "keep-id",
            "--name",
            "yadt-test-run",
            "--http-proxy",
            "--network",
            "host",
            "--env-merge",
            "PATH=${PATH}:/yadt-bin",
            "sha256:abc",
            "/bin/bash",
        ])
    );
}

#[test]
fn recipe_text_binds_the_three_parameters() {
    let recipe = recipe_text();
    assert!(recipe.contains("ARG NIX_IMAGE"));
    assert!(recipe.contains("ARG DEV_IMAGE"));
    assert!(recipe.contains("ARG PACKAGES_STRING"));
    assert!(recipe.contains("${NIX_IMAGE}"));
    assert!(recipe.contains("${DEV_IMAGE}"));
    assert!(recipe.contains("${PACKAGES_STRING}"));
}

#[test]
fn pipe_completes_with_payload_larger_than_buffer_and_slow_reader() {
    let mut payload: Vec<u8> = Vec::new();
    let mut i: u32 = 0;
    while i < 4096 {
        payload.push((i % 251) as u8);
        i += 1;
    }
    let delivered = pipe_transfer(&payload, 16, 1);
    assert_eq!(delivered, payload);
}

#[test]
fn pipe_delivers_in_order_with_odd_chunking() {
    let payload: Vec<u8> = strings(&["a recipe well larger than the buffer it must cross"])
        .remove(0)
        .into_bytes();
    let delivered = pipe_transfer(&payload, 7, 3);
    assert_eq!(delivered, payload);
}

#[test]
fn end_to_end_scenario() {
    let config = Config {
        docker_name: "podman".to_string(),
        nix_image: "docker.io/nixos/nix:latest".to_string(),
        base_packages: strings(&["bash"]),
        additional_packages: strings(&["git"]),
    };
    let packages = config.all_packages();
    let tokens: Vec<&str> = packages.split(' ').collect();
    assert_eq!(tokens.len(), 2);
    assert!(tokens.contains(&"nixpkgs#bash"));
    assert!(tokens.contains(&"nixpkgs#git"));

    let step = acquisition_step(BuildTarget::FromReference(
        "docker.io/library/ubuntu:latest".to_string(),
    ));
    let dev_image = match step {
        AcquireStep::Done(name) => name,
        AcquireStep::NeedBuild(_) => panic!("no build may run for a reference target"),
    };

    let args = layered_build_args(&config.nix_image, &dev_image, &packages);
    assert!(args.contains(&"NIX_IMAGE=docker.io/nixos/nix:latest".to_string()));
    assert!(args.contains(&"DEV_IMAGE=docker.io/library/ubuntu:latest".to_string()));
    let packages_arg = args.last().unwrap();
    assert!(packages_arg.starts_with("PACKAGES_STRING="));
    assert!(packages_arg.contains("nixpkgs#bash"));
    assert!(packages_arg.contains("nixpkgs#git"));

    let (echoes, result) = capture_stream(
        strings(&["step 1/2", "<sha256-id>"]),
        Stage::LayeredBuild,
    );
    assert_eq!(echoes, strings(&[">>> step 1/2", ">>> <sha256-id>"]));
    let image_id = result.unwrap();
    assert_eq!(image_id, "<sha256-id>");

    let run = run_args(&image_id, &"/home/user/project".to_string());
    assert_eq!(run[run.len() - 2], "<sha256-id>");
}
