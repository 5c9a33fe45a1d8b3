use gitstatus::locator::{locate_step, LocateError, LocateStep, Probe};

#[test]
fn directory_ends_the_search() {
    assert_eq!(locate_step(&Probe::Directory, true), LocateStep::Found);
    assert_eq!(locate_step(&Probe::Directory, false), LocateStep::Found);
}

#[test]
fn redirect_file_points_at_the_metadata_directory() {
    let probe = Probe::File(Some("gitdir: /srv/repo/.git/worktrees/wt\n".to_string()));
    assert_eq!(locate_step(&probe, true), LocateStep::Redirected("/srv/repo/.git/worktrees/wt".to_string()));
    let relative = Probe::File(Some("gitdir: ../.git/modules/sub".to_string()));
    assert_eq!(locate_step(&relative, false), LocateStep::Redirected("../.git/modules/sub".to_string()));
}

#[test]
fn broken_redirect_file_fails() {
    let probe = Probe::File(Some("nothing of use\n".to_string()));
    assert_eq!(locate_step(&probe, true), LocateStep::Failed(LocateError::InvalidGitFile));
    assert_eq!(locate_step(&Probe::File(None), true), LocateStep::Failed(LocateError::MetadataReadFailure));
}

#[test]
fn search_goes_up_until_the_root() {
    assert_eq!(locate_step(&Probe::Absent, true), LocateStep::Ascend);
    assert_eq!(locate_step(&Probe::Absent, false), LocateStep::Failed(LocateError::NotARepository));
}
