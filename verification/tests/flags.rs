use es_git::attr::{lookup_flags, AttrOptions};
use es_git::diff::{diff_flags_contains, DiffFlags};
use es_git::index::{
    lookup_stage, removal_stage, IndexAddAllOptions, IndexRemoveOptions, IndexStage, INDEX_ADD_CHECK_PATHSPEC,
    INDEX_ADD_DEFAULT, INDEX_ADD_DISABLE_PATHSPEC_MATCH, INDEX_ADD_FORCE,
};
use es_git::merge::{MergeAnalysis, MergeAnalysisResult, MergePreference};
use es_git::reference::{format_flags, ReferenceFormat, REFERENCE_FORMAT_ALL};
use es_git::repository::{init_mode, RepositoryInitMode, RepositoryOpenOptions, INIT_MODE_ALL};
use es_git::revparse::{revparse_mode_contains, RevparseMode};
use es_git::stash::StashSaveOptions;
use es_git::status::Status;
use es_git::submodule::{submodule_status_contains, SubmoduleStatus};
use es_git::util::{bitflags_contain, bitflags_intersect, flag_when, set_flag};

const WORDS: [u32; 12] = [0, 1, 2, 3, 4, 5, 7, 8, 0x80, 0xffff, 0x8000_0000, u32::MAX];

#[test]
fn contain_and_intersect_agree_with_the_engine_flags() {
    for &a in WORDS.iter() {
        for &b in WORDS.iter() {
            let left = git2::Status::from_bits_retain(a);
            let right = git2::Status::from_bits_retain(b);
            assert_eq!(bitflags_contain(a, b), left.contains(right));
            assert_eq!(bitflags_intersect(a, b), left.intersects(right));
        }
    }
}

#[test]
fn contain_exact_values() {
    assert!(bitflags_contain(0b110, 0b100));
    assert!(bitflags_contain(0b110, 0b110));
    assert!(!bitflags_contain(0b110, 0b101));
    assert!(bitflags_contain(0, 0));
    assert!(bitflags_contain(5, 0));
    assert!(!bitflags_intersect(5, 0));
    assert!(!bitflags_intersect(0b110, 0b001));
    assert!(bitflags_intersect(0b110, 0b011));
}

#[test]
fn flag_helpers_exact_values() {
    assert_eq!(flag_when(Some(true), 8), 8);
    assert_eq!(flag_when(Some(false), 8), 0);
    assert_eq!(flag_when(None, 8), 0);
    assert_eq!(set_flag(0b0101, 0b0010, true), 0b0111);
    assert_eq!(set_flag(0b0111, 0b0010, false), 0b0101);
    assert_eq!(set_flag(0b0101, 0b0010, false), 0b0101);
    assert_eq!(set_flag(0b0101, 0, true), 0b0101);
    assert_eq!(set_flag(0b0101, 0, false), 0b0101);
}

#[test]
fn index_add_flags_are_the_engine_flags() {
    assert_eq!(INDEX_ADD_DEFAULT, git2::IndexAddOption::DEFAULT.bits());
    assert_eq!(INDEX_ADD_FORCE, git2::IndexAddOption::FORCE.bits());
    assert_eq!(INDEX_ADD_DISABLE_PATHSPEC_MATCH, git2::IndexAddOption::DISABLE_PATHSPEC_MATCH.bits());
    assert_eq!(INDEX_ADD_CHECK_PATHSPEC, git2::IndexAddOption::CHECK_PATHSPEC.bits());
}

#[test]
fn index_add_all_options_make_the_flag_word() {
    let switch = [None, Some(false), Some(true)];
    for force in switch {
        for disable_pathspec_match in switch {
            for check_pathspec in switch {
                let mut expected = git2::IndexAddOption::DEFAULT;
                if let Some(true) = force {
                    expected |= git2::IndexAddOption::FORCE;
                }
                if let Some(true) = disable_pathspec_match {
                    expected |= git2::IndexAddOption::DISABLE_PATHSPEC_MATCH;
                }
                if let Some(true) = check_pathspec {
                    expected |= git2::IndexAddOption::CHECK_PATHSPEC;
                }
                let options = IndexAddAllOptions { force, disable_pathspec_match, check_pathspec };
                assert_eq!(options.get_flag(), expected.bits());
            }
        }
    }
    assert_eq!(IndexAddAllOptions::default().get_flag(), 0);
    assert_eq!(
        IndexAddAllOptions { force: Some(true), disable_pathspec_match: None, check_pathspec: Some(true) }.get_flag(),
        5
    );
}

#[test]
fn index_stage_numbers() {
    assert_eq!(i32::from(IndexStage::Any), -1);
    assert_eq!(i32::from(IndexStage::Normal), 0);
    assert_eq!(i32::from(IndexStage::Ancestor), 1);
    assert_eq!(i32::from(IndexStage::Ours), 2);
    assert_eq!(i32::from(IndexStage::Theirs), 3);
    assert_eq!(IndexStage::default(), IndexStage::Normal);
    assert_eq!(lookup_stage(None), 0);
    assert_eq!(lookup_stage(Some(IndexStage::Theirs)), 3);
    assert_eq!(lookup_stage(Some(IndexStage::Any)), -1);
}

#[test]
fn removal_stage_is_named_only_by_the_options() {
    assert_eq!(removal_stage(None), None);
    assert_eq!(removal_stage(Some(IndexRemoveOptions { stage: None })), None);
    assert_eq!(removal_stage(Some(IndexRemoveOptions { stage: Some(IndexStage::Ours) })), Some(2));
    assert_eq!(removal_stage(Some(IndexRemoveOptions { stage: Some(IndexStage::Normal) })), Some(0));
    assert_eq!(removal_stage(Some(IndexRemoveOptions { stage: Some(IndexStage::Any) })), Some(-1));
}

fn engine_attr_flags(options: &AttrOptions) -> u32 {
    fn flag(flags: &mut git2::AttrCheckFlags, opt: git2::AttrCheckFlags, val: bool) {
        if val {
            *flags |= opt;
        } else {
            *flags &= !opt;
        }
    }
    let mut flags = git2::AttrCheckFlags::default();
    if let Some(v) = options.check_file_then_index {
        flag(&mut flags, git2::AttrCheckFlags::FILE_THEN_INDEX, v);
    }
    if let Some(v) = options.check_index_then_file {
        flag(&mut flags, git2::AttrCheckFlags::INDEX_THEN_FILE, v);
    }
    if let Some(v) = options.check_index_only {
        flag(&mut flags, git2::AttrCheckFlags::INDEX_ONLY, v);
    }
    if let Some(v) = options.check_no_system {
        flag(&mut flags, git2::AttrCheckFlags::NO_SYSTEM, v);
    }
    flags.bits()
}

#[test]
fn attr_options_make_the_flag_word() {
    let switch = [None, Some(false), Some(true)];
    for a in switch {
        for b in switch {
            for c in switch {
                for d in switch {
                    let options = AttrOptions {
                        check_file_then_index: a,
                        check_index_then_file: b,
                        check_index_only: c,
                        check_no_system: d,
                    };
                    assert_eq!(options.flags(), engine_attr_flags(&options));
                    assert!(options.flags() <= 7);
                }
            }
        }
    }
    assert_eq!(lookup_flags(&None), git2::AttrCheckFlags::default().bits());
    assert_eq!(
        lookup_flags(&Some(AttrOptions {
            check_file_then_index: Some(true),
            check_index_then_file: Some(true),
            check_index_only: None,
            check_no_system: Some(true),
        })),
        5
    );
}

#[test]
fn merge_analysis_reads_like_the_engine() {
    for bits in 0u32..32 {
        let engine = git2::MergeAnalysis::from_bits_retain(bits);
        let analysis = MergeAnalysis::from_bits(bits);
        assert_eq!(analysis.none, engine.is_none());
        assert_eq!(analysis.normal, engine.is_normal());
        assert_eq!(analysis.up_to_date, engine.is_up_to_date());
        assert_eq!(analysis.fast_forward, engine.is_fast_forward());
        assert_eq!(analysis.unborn, engine.is_unborn());
        let engine = git2::MergePreference::from_bits_retain(bits);
        let preference = MergePreference::from_bits(bits);
        assert_eq!(preference.none, engine.is_none());
        assert_eq!(preference.no_fast_forward, engine.is_no_fast_forward());
        assert_eq!(preference.fast_forward_only, engine.is_fastforward_only());
    }
}

#[test]
fn merge_analysis_exact_values() {
    assert_eq!(
        MergeAnalysis::from_bits(0),
        MergeAnalysis { none: false, normal: false, up_to_date: false, fast_forward: false, unborn: false }
    );
    assert_eq!(
        MergeAnalysis::from_bits(5),
        MergeAnalysis { none: false, normal: true, up_to_date: false, fast_forward: true, unborn: false }
    );
    assert_eq!(
        MergeAnalysis::from_bits(10),
        MergeAnalysis { none: false, normal: false, up_to_date: true, fast_forward: false, unborn: true }
    );
    assert_eq!(
        MergePreference::from_bits(2),
        MergePreference { none: false, no_fast_forward: false, fast_forward_only: true }
    );
    let result = MergeAnalysisResult::from_bits(1, 1);
    assert!(result.analysis.normal);
    assert!(result.preference.no_fast_forward);
    assert!(!result.preference.fast_forward_only);
}

#[test]
fn status_reads_like_the_engine() {
    let words = [0u32, 1, 2, 4, 8, 16, 128, 256, 512, 1024, 2048, 4096, 16384, 32768, 0x83, 0xffff, u32::MAX];
    for &bits in words.iter() {
        let engine = git2::Status::from_bits_retain(bits);
        let status = Status::from_bits(bits);
        assert_eq!(status.current, engine.contains(git2::Status::CURRENT));
        assert_eq!(status.index_new, engine.contains(git2::Status::INDEX_NEW));
        assert_eq!(status.index_modified, engine.contains(git2::Status::INDEX_MODIFIED));
        assert_eq!(status.index_deleted, engine.contains(git2::Status::INDEX_DELETED));
        assert_eq!(status.index_renamed, engine.contains(git2::Status::INDEX_RENAMED));
        assert_eq!(status.index_typechange, engine.contains(git2::Status::INDEX_TYPECHANGE));
        assert_eq!(status.wt_new, engine.contains(git2::Status::WT_NEW));
        assert_eq!(status.wt_modified, engine.contains(git2::Status::WT_MODIFIED));
        assert_eq!(status.wt_deleted, engine.contains(git2::Status::WT_DELETED));
        assert_eq!(status.wt_typechange, engine.contains(git2::Status::WT_TYPECHANGE));
        assert_eq!(status.wt_renamed, engine.contains(git2::Status::WT_RENAMED));
        assert_eq!(status.ignored, engine.contains(git2::Status::IGNORED));
        assert_eq!(status.conflicted, engine.contains(git2::Status::CONFLICTED));
        assert!(status.current);
    }
}

#[test]
fn status_exact_values() {
    let status = Status::from_bits(1 | 256);
    assert!(status.index_new);
    assert!(status.wt_modified);
    assert!(!status.index_modified);
    assert!(!status.wt_new);
    assert!(!status.ignored);
    assert!(!status.conflicted);
    let ignored = Status::from_bits(16384);
    assert!(ignored.ignored);
    assert!(!ignored.conflicted);
}

#[test]
fn open_flags_are_made_like_the_engine_makes_them() {
    let switch = [None, Some(false), Some(true)];
    for no_search in switch {
        for cross_fs in switch {
            for bare in switch {
                for no_dotgit in switch {
                    for from_env in switch {
                        let mut expected = git2::RepositoryOpenFlags::empty();
                        if let Some(true) = no_search {
                            expected.insert(git2::RepositoryOpenFlags::NO_SEARCH);
                        }
                        if let Some(true) = cross_fs {
                            expected.insert(git2::RepositoryOpenFlags::CROSS_FS);
                        }
                        if let Some(true) = bare {
                            expected.insert(git2::RepositoryOpenFlags::BARE);
                        }
                        if let Some(true) = no_dotgit {
                            expected.insert(git2::RepositoryOpenFlags::NO_DOTGIT);
                        }
                        if let Some(true) = from_env {
                            expected.insert(git2::RepositoryOpenFlags::FROM_ENV);
                        }
                        let options =
                            RepositoryOpenOptions { no_search, cross_fs, bare, no_dotgit, from_env, ceiling_dirs: None };
                        assert_eq!(options.flags(), expected.bits());
                    }
                }
            }
        }
    }
    assert_eq!(RepositoryOpenOptions::default().flags(), 0);
    assert_eq!(
        RepositoryOpenOptions { bare: Some(true), from_env: Some(true), ..Default::default() }.flags(),
        20
    );
}

#[test]
fn init_modes_are_the_engine_modes() {
    assert_eq!(RepositoryInitMode::SharedUnmask.bits(), git2::RepositoryInitMode::SHARED_UMASK.bits());
    assert_eq!(RepositoryInitMode::SharedGroup.bits(), git2::RepositoryInitMode::SHARED_GROUP.bits());
    assert_eq!(RepositoryInitMode::SharedAll.bits(), git2::RepositoryInitMode::SHARED_ALL.bits());
    assert_eq!(INIT_MODE_ALL, git2::RepositoryInitMode::all().bits());
    for mode in [0u32, 0o755, 0o2775, 0o2777, 0o7777, 0o100644, u32::MAX] {
        assert_eq!(init_mode(mode), git2::RepositoryInitMode::from_bits_truncate(mode).bits());
    }
    assert_eq!(init_mode(0o7777), 0o2777);
    assert_eq!(init_mode(0o755), 0o755);
}

#[test]
fn stash_flags_are_made_like_the_engine_makes_them() {
    let switch = [None, Some(false), Some(true)];
    for include_untracked in switch {
        for include_ignored in switch {
            for keep_index in switch {
                let mut expected = git2::StashFlags::empty();
                if include_untracked.unwrap_or(false) {
                    expected |= git2::StashFlags::INCLUDE_UNTRACKED;
                }
                if include_ignored.unwrap_or(false) {
                    expected |= git2::StashFlags::INCLUDE_IGNORED;
                }
                if keep_index.unwrap_or(false) {
                    expected |= git2::StashFlags::KEEP_INDEX;
                }
                let options = StashSaveOptions { message: None, include_untracked, include_ignored, keep_index };
                assert_eq!(options.flags(), expected.bits());
            }
        }
    }
    assert_eq!(
        StashSaveOptions { include_untracked: Some(true), keep_index: Some(true), ..Default::default() }.flags(),
        3
    );
}

#[test]
fn revparse_modes_are_the_engine_modes() {
    assert_eq!(RevparseMode::single(), git2::RevparseMode::SINGLE.bits());
    assert_eq!(RevparseMode::range(), git2::RevparseMode::RANGE.bits());
    assert_eq!(RevparseMode::merge_base(), git2::RevparseMode::MERGE_BASE.bits());
    assert_eq!(RevparseMode::single(), 1);
    assert_eq!(RevparseMode::range(), 2);
    assert_eq!(RevparseMode::merge_base(), 4);
    assert!(revparse_mode_contains(6, RevparseMode::range()));
    assert!(revparse_mode_contains(6, RevparseMode::merge_base()));
    assert!(!revparse_mode_contains(6, RevparseMode::single()));
    for &a in WORDS.iter() {
        for &b in WORDS.iter() {
            let expected = git2::RevparseMode::from_bits_retain(a).contains(git2::RevparseMode::from_bits_retain(b));
            assert_eq!(revparse_mode_contains(a, b), expected);
        }
    }
}

#[test]
fn diff_flags_are_the_engine_flags() {
    assert_eq!(DiffFlags::Binary.bits(), git2::DiffFlags::BINARY.bits());
    assert_eq!(DiffFlags::NotBinary.bits(), git2::DiffFlags::NOT_BINARY.bits());
    assert_eq!(DiffFlags::ValidId.bits(), git2::DiffFlags::VALID_ID.bits());
    assert_eq!(DiffFlags::Exists.bits(), git2::DiffFlags::EXISTS.bits());
    assert!(diff_flags_contains(12, DiffFlags::Exists.bits()));
    assert!(diff_flags_contains(12, DiffFlags::ValidId.bits()));
    assert!(!diff_flags_contains(12, DiffFlags::Binary.bits()));
    for &a in WORDS.iter() {
        for &b in WORDS.iter() {
            let expected = git2::DiffFlags::from_bits_retain(a).contains(git2::DiffFlags::from_bits_retain(b));
            assert_eq!(diff_flags_contains(a, b), expected);
        }
    }
}

#[test]
fn submodule_status_flags_are_the_engine_flags() {
    let pairs = [
        (SubmoduleStatus::InHead, git2::SubmoduleStatus::IN_HEAD),
        (SubmoduleStatus::InIndex, git2::SubmoduleStatus::IN_INDEX),
        (SubmoduleStatus::InConfig, git2::SubmoduleStatus::IN_CONFIG),
        (SubmoduleStatus::InWD, git2::SubmoduleStatus::IN_WD),
        (SubmoduleStatus::IndexAdded, git2::SubmoduleStatus::INDEX_ADDED),
        (SubmoduleStatus::IndexDeleted, git2::SubmoduleStatus::INDEX_DELETED),
        (SubmoduleStatus::IndexModified, git2::SubmoduleStatus::INDEX_MODIFIED),
        (SubmoduleStatus::WDUninitialized, git2::SubmoduleStatus::WD_UNINITIALIZED),
        (SubmoduleStatus::WDAdded, git2::SubmoduleStatus::WD_ADDED),
        (SubmoduleStatus::WDDeleted, git2::SubmoduleStatus::WD_DELETED),
        (SubmoduleStatus::WDModified, git2::SubmoduleStatus::WD_MODIFIED),
        (SubmoduleStatus::WDIndexModified, git2::SubmoduleStatus::WD_INDEX_MODIFIED),
        (SubmoduleStatus::WDWDModified, git2::SubmoduleStatus::WD_WD_MODIFIED),
        (SubmoduleStatus::WDUntracked, git2::SubmoduleStatus::WD_UNTRACKED),
    ];
    for (ours, theirs) in pairs {
        assert_eq!(ours.bits(), theirs.bits());
    }
    assert_eq!(SubmoduleStatus::WDUntracked.bits(), 8192);
    assert!(submodule_status_contains(3, SubmoduleStatus::InIndex.bits()));
    assert!(!submodule_status_contains(3, SubmoduleStatus::InWD.bits()));
}

#[test]
fn reference_formats_are_the_engine_formats() {
    assert_eq!(ReferenceFormat::Normal.bits(), git2::ReferenceFormat::NORMAL.bits());
    assert_eq!(ReferenceFormat::AllowOnelevel.bits(), git2::ReferenceFormat::ALLOW_ONELEVEL.bits());
    assert_eq!(ReferenceFormat::RefspecPattern.bits(), git2::ReferenceFormat::REFSPEC_PATTERN.bits());
    assert_eq!(ReferenceFormat::RefspecShorthand.bits(), git2::ReferenceFormat::REFSPEC_SHORTHAND.bits());
    assert_eq!(REFERENCE_FORMAT_ALL, git2::ReferenceFormat::all().bits());
    assert_eq!(ReferenceFormat::default(), ReferenceFormat::Normal);
    assert_eq!(format_flags(None), 0);
    assert_eq!(format_flags(Some(5)), 5);
    for bits in [0u32, 1, 6, 7, 8, 9, 0xff, u32::MAX] {
        assert_eq!(format_flags(Some(bits)), git2::ReferenceFormat::from_bits_truncate(bits).bits());
    }
    assert_eq!(format_flags(Some(0xfff9)), 1);
}
