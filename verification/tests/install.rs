use lc1c_core::install::{
    after_genesis_step, download_accepted, download_folder, download_refused,
    executable_candidates, executable_not_found, find_node_folder, first_existing,
    first_genesis_step, genesis_environment, genesis_program, genesis_step_arguments,
    install_plan, install_result, install_root, install_script_resource, installer_command,
    installer_file_name, installer_url, node_executable_name, opens_after_download,
    select_node_folder, unsupported_platform, version_report, CommandLine, DownloadFolder,
    FolderEntry, GenesisNext, GenesisStep, InstallPlan, RunOutcome, StepOutcome,
};
use lc1c_core::lifecycle::ProgramLocation;
use lc1c_core::supervisor::Platform;

fn entry(name: &str, is_directory: bool, holds_executable: bool) -> FolderEntry {
    FolderEntry { name: name.to_string(), is_directory, holds_executable }
}

#[test]
fn fixed_places_of_the_executable() {
    let expected = vec!["/usr/bin/concordium-node", "/usr/local/bin/concordium-node"];
    assert_eq!(executable_candidates(Platform::Linux), expected);
    assert_eq!(executable_candidates(Platform::MacOs), expected);
    assert!(executable_candidates(Platform::Windows).is_empty());
    assert!(executable_candidates(Platform::Other).is_empty());
    assert_eq!(install_root(), "C:\\Program Files\\Concordium");
    assert_eq!(node_executable_name(), "concordium-node.exe");
    assert_eq!(executable_not_found(), "Concordium Node executable not found");
}

#[test]
fn the_first_existing_candidate_is_taken() {
    assert_eq!(first_existing(&vec![false, true, true]), Some(1));
    assert_eq!(first_existing(&vec![true, false]), Some(0));
    assert_eq!(first_existing(&vec![false, false]), None);
    assert_eq!(first_existing(&vec![]), None);
}

#[test]
fn node_folder_is_found_by_its_name() {
    let entries = vec![
        entry("Readme", true, true),
        entry("Node 6.0.4", false, true),
        entry("Node 5.4.2", true, false),
        entry("Node 6.0.4", true, true),
        entry("Node 7.0.0", true, true),
    ];
    assert_eq!(find_node_folder(&entries), Some(3));
}

#[test]
fn node_folder_pattern_is_searched_for_anywhere_in_the_name() {
    assert_eq!(find_node_folder(&vec![entry("Old Node 12.0.33 (backup)", true, true)]), Some(0));
    assert_eq!(find_node_folder(&vec![entry("Node 1.2", true, true)]), None);
    assert_eq!(find_node_folder(&vec![entry("Node1.2.3", true, true)]), None);
    assert_eq!(find_node_folder(&vec![entry("Node 1-2-3", true, true)]), None);
    assert_eq!(find_node_folder(&vec![entry("node 1.2.3", true, true)]), None);
    assert_eq!(find_node_folder(&vec![entry("Node 1.2.3", true, true)]), Some(0));
    assert_eq!(find_node_folder(&vec![]), None);
}

#[test]
fn selection_takes_the_first_matching_directory_with_the_executable() {
    let entries = vec![entry("a", true, true), entry("b", true, true), entry("c", true, true)];
    assert_eq!(select_node_folder(&entries, &vec![false, true, true]), Some(1));
    assert_eq!(select_node_folder(&entries, &vec![false, false, false]), None);
    assert_eq!(select_node_folder(&entries, &vec![false]), None);
    assert_eq!(select_node_folder(&entries, &vec![]), None);
    let files = vec![entry("a", false, true), entry("b", true, false)];
    assert_eq!(select_node_folder(&files, &vec![true, true]), None);
}

#[test]
fn installer_per_platform() {
    assert_eq!(
        installer_url(Platform::Windows),
        Some("https://distribution.concordium.software/windows/Signed/Node-6.0.4-0.msi")
    );
    assert_eq!(
        installer_url(Platform::MacOs),
        Some("https://distribution.concordium.software/macos/signed/concordium-node-6.0.4-0.pkg")
    );
    assert_eq!(
        installer_url(Platform::Linux),
        Some("https://distribution.mainnet.concordium.software/deb/concordium-mainnet-node_6.0.4-0_amd64.deb")
    );
    assert_eq!(installer_url(Platform::Other), None);
    assert_eq!(installer_file_name(Platform::Windows), Some("concordium-node-lc1c.msi"));
    assert_eq!(installer_file_name(Platform::MacOs), Some("concordium-node-lc1c.pkg"));
    assert_eq!(installer_file_name(Platform::Linux), Some("concordium-node-lc1c.deb"));
    assert_eq!(installer_file_name(Platform::Other), None);
    assert_eq!(download_folder(Platform::Linux), DownloadFolder::Fixed { path: "/tmp" });
    assert_eq!(download_folder(Platform::Windows), DownloadFolder::UserDownloads);
    assert_eq!(download_folder(Platform::MacOs), DownloadFolder::UserDownloads);
    assert_eq!(install_script_resource(), "assets/install_concordium_debian.sh");
    assert_eq!(unsupported_platform(), "Unsupported OS");
}

#[test]
fn install_plans() {
    for platform in [Platform::Windows, Platform::MacOs, Platform::Linux, Platform::Other] {
        assert_eq!(install_plan(true, platform), InstallPlan::AlreadyInstalled);
    }
    assert_eq!(install_plan(false, Platform::Other), InstallPlan::Unsupported);
    assert_eq!(
        install_plan(false, Platform::Linux),
        InstallPlan::Download {
            url: "https://distribution.mainnet.concordium.software/deb/concordium-mainnet-node_6.0.4-0_amd64.deb",
            file_name: "concordium-node-lc1c.deb",
            folder: DownloadFolder::Fixed { path: "/tmp" },
        }
    );
    assert_eq!(
        install_plan(false, Platform::Windows),
        InstallPlan::Download {
            url: "https://distribution.concordium.software/windows/Signed/Node-6.0.4-0.msi",
            file_name: "concordium-node-lc1c.msi",
            folder: DownloadFolder::UserDownloads,
        }
    );
}

fn strings(list: &[&str]) -> Vec<String> {
    list.iter().map(|s| s.to_string()).collect()
}

#[test]
fn installer_commands() {
    assert_eq!(
        installer_command(Platform::Linux, "/tmp/n.deb", "/res/install.sh"),
        Some(CommandLine {
            program: "pkexec",
            arguments: strings(&["bash", "/res/install.sh", "/tmp/n.deb"]),
        })
    );
    assert_eq!(
        installer_command(Platform::Windows, "C:\\n.msi", "unused"),
        Some(CommandLine {
            program: "msiexec",
            arguments: strings(&["/i", "C:\\n.msi", "/passive", "/norestart"]),
        })
    );
    assert_eq!(
        installer_command(Platform::MacOs, "/d/n.pkg", "unused"),
        Some(CommandLine {
            program: "sudo",
            arguments: strings(&["installer", "-pkg", "/d/n.pkg", "-target", "/"]),
        })
    );
    assert_eq!(installer_command(Platform::Other, "x", "y"), None);
}

#[test]
fn install_results() {
    for platform in [Platform::Windows, Platform::MacOs, Platform::Linux, Platform::Other] {
        assert_eq!(install_result(platform, RunOutcome::Succeeded), Ok(()));
    }
    assert_eq!(install_result(Platform::Linux, RunOutcome::Failed), Err("Installation failed"));
    assert_eq!(install_result(Platform::MacOs, RunOutcome::Failed), Err("Installation failed"));
    assert_eq!(
        install_result(Platform::Windows, RunOutcome::Failed),
        Err("Installation failed. Ensure you are running with administrative privileges.")
    );
    assert_eq!(
        install_result(Platform::Linux, RunOutcome::NotStarted),
        Err("Failed to execute the bash script with pkexec")
    );
    assert_eq!(
        install_result(Platform::Windows, RunOutcome::NotStarted),
        Err("Failed to execute msiexec command")
    );
    assert_eq!(
        install_result(Platform::MacOs, RunOutcome::NotStarted),
        Err("Failed to execute installer command")
    );
}

#[test]
fn downloads() {
    assert!(download_accepted(200));
    assert!(!download_accepted(201));
    assert!(!download_accepted(404));
    assert!(!download_accepted(0));
    assert_eq!(
        download_refused("404 Not Found"),
        "Failed to download file. HTTP response: 404 Not Found"
    );
    assert!(opens_after_download(Platform::MacOs));
    assert!(!opens_after_download(Platform::Linux));
    assert!(!opens_after_download(Platform::Windows));
}

#[test]
fn version_reports() {
    assert_eq!(
        version_report(true, "concordium-node 6.0.4\n".to_string(), String::new()),
        Ok("concordium-node 6.0.4\n".to_string())
    );
    assert_eq!(
        version_report(false, "out".to_string(), "it broke".to_string()),
        Err("it broke".to_string())
    );
    assert_eq!(
        version_report(false, String::new(), "sh: concordium-node: command not found".to_string()),
        Err("Concordium node is not installed.".to_string())
    );
    // The wording on the error stream counts even where the run reports success.
    assert_eq!(
        version_report(true, "v".to_string(), "x: No such file or directory".to_string()),
        Err("Concordium node is not installed.".to_string())
    );
    assert_eq!(
        version_report(false, String::new(), "Command Not Found".to_string()),
        Err("Command Not Found".to_string())
    );
}

#[test]
fn genesis_steps_have_their_commands() {
    assert_eq!(genesis_environment(), ("CARGO_NET_GIT_FETCH_WITH_CLI", "true"));
    assert_eq!(first_genesis_step(Platform::Windows), GenesisStep::ProbeCreator);
    assert_eq!(first_genesis_step(Platform::Linux), GenesisStep::InstallFromGit);
    assert_eq!(first_genesis_step(Platform::MacOs), GenesisStep::InstallFromGit);
    assert_eq!(
        genesis_program(GenesisStep::ProbeCreator),
        ProgramLocation::OnPath { name: "genesis-creator" }
    );
    assert_eq!(genesis_program(GenesisStep::ProbeCargo), ProgramLocation::OnPath { name: "cargo" });
    assert_eq!(genesis_program(GenesisStep::CloneTools), ProgramLocation::OnPath { name: "git" });
    assert_eq!(
        genesis_program(GenesisStep::InstallFromClone),
        ProgramLocation::OnPath { name: "cargo" }
    );
    assert_eq!(genesis_program(GenesisStep::RemoveClone), ProgramLocation::OnPath { name: "cmd" });
    assert_eq!(
        genesis_program(GenesisStep::InstallFromGit),
        ProgramLocation::UnderHome { relative: ".cargo/bin/cargo" }
    );
    assert_eq!(genesis_step_arguments(GenesisStep::ProbeCreator), vec!["--version"]);
    assert_eq!(genesis_step_arguments(GenesisStep::ProbeCargo), vec!["--version"]);
    assert_eq!(
        genesis_step_arguments(GenesisStep::CloneTools),
        vec![
            "clone",
            "--recurse-submodules",
            "https://github.com/Concordium/concordium-misc-tools.git"
        ]
    );
    assert_eq!(
        genesis_step_arguments(GenesisStep::InstallFromClone),
        vec!["install", "--path", "concordium-misc-tools/genesis-creator/", "--locked"]
    );
    assert_eq!(
        genesis_step_arguments(GenesisStep::RemoveClone),
        vec!["/C", "rmdir", "/s", "/q", "concordium-misc-tools"]
    );
    assert_eq!(
        genesis_step_arguments(GenesisStep::InstallFromGit),
        vec![
            "install",
            "--git",
            "https://github.com/Concordium/concordium-misc-tools.git",
            "genesis-creator",
            "--locked"
        ]
    );
}

fn exited(success: bool) -> StepOutcome {
    StepOutcome::Exited { success, stdout: "out".to_string(), stderr: "err".to_string() }
}

fn not_started() -> StepOutcome {
    StepOutcome::NotStarted { error: "no such program".to_string() }
}

#[test]
fn genesis_installation_where_the_creator_is_there() {
    let done = GenesisNext::Done(Ok("Successfully installed genesis-creator".to_string()));
    assert_eq!(after_genesis_step(GenesisStep::ProbeCreator, exited(true)), done);
    assert_eq!(after_genesis_step(GenesisStep::ProbeCreator, exited(false)), done);
}

#[test]
fn genesis_installation_from_a_clone() {
    assert_eq!(
        after_genesis_step(GenesisStep::ProbeCreator, not_started()),
        GenesisNext::Run(GenesisStep::ProbeCargo)
    );
    assert_eq!(
        after_genesis_step(GenesisStep::ProbeCargo, exited(false)),
        GenesisNext::Run(GenesisStep::CloneTools)
    );
    assert_eq!(
        after_genesis_step(GenesisStep::CloneTools, exited(false)),
        GenesisNext::Run(GenesisStep::InstallFromClone)
    );
    assert_eq!(
        after_genesis_step(GenesisStep::InstallFromClone, exited(true)),
        GenesisNext::Run(GenesisStep::RemoveClone)
    );
    assert_eq!(
        after_genesis_step(GenesisStep::RemoveClone, exited(true)),
        GenesisNext::Done(Ok("Successfully installed genesis-creator".to_string()))
    );
}

#[test]
fn genesis_installation_failures() {
    assert_eq!(
        after_genesis_step(GenesisStep::ProbeCargo, not_started()),
        GenesisNext::Done(Err("Cargo is not found in your PATH. Please install Rust and Cargo, and ensure they are in your PATH.".to_string()))
    );
    assert_eq!(
        after_genesis_step(GenesisStep::CloneTools, not_started()),
        GenesisNext::Done(Err("Failed to clone the repository: no such program".to_string()))
    );
    assert_eq!(
        after_genesis_step(GenesisStep::InstallFromClone, not_started()),
        GenesisNext::Done(Err("Failed to install with cargo: no such program".to_string()))
    );
    assert_eq!(
        after_genesis_step(GenesisStep::RemoveClone, not_started()),
        GenesisNext::Done(Err("Failed to delete the directory: no such program".to_string()))
    );
    assert_eq!(
        after_genesis_step(GenesisStep::InstallFromGit, not_started()),
        GenesisNext::Done(Err("Cargo install command failed: no such program".to_string()))
    );
}

#[test]
fn genesis_installation_from_git_reports_the_run() {
    assert_eq!(
        after_genesis_step(GenesisStep::InstallFromGit, exited(true)),
        GenesisNext::Done(Ok("out".to_string()))
    );
    assert_eq!(
        after_genesis_step(GenesisStep::InstallFromGit, exited(false)),
        GenesisNext::Done(Err("err".to_string()))
    );
}
