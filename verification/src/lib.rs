mod builder;
mod cleanup;
mod entry;
mod event;
mod names;
mod reconcile;
mod store;
mod sync;

pub use entry::EntryType;
pub use entry::FileEntry;
pub use entry::EntryModel;
pub use entry::entries_equal;
pub use names::basename;
pub use names::basename_of;
pub use names::is_prefix_of;
pub use names::is_transient_copy;
pub use names::is_transient_copy_name;
pub use names::fallback_copy_name;
pub use names::file_name;
pub use names::file_name_of;
pub use names::lemma_file_name_no_separator;
pub use names::lemma_renamed_is_transient;
pub use names::rename_marker;
pub use names::rename_redundant_files;
pub use names::renamed_name;
pub use names::str_eq;
pub use names::str_starts_with;
pub use reconcile::Action;
pub use reconcile::ActionModel;
pub use reconcile::Decision;
pub use reconcile::PlanModel;
pub use reconcile::ReconcilePlan;
pub use reconcile::action_failure_message;
pub use reconcile::check_with_filename;
pub use reconcile::decision_of;
pub use reconcile::empty_plan;
pub use reconcile::failure_message;
pub use reconcile::find_by_name;
pub use reconcile::find_name;
pub use reconcile::find_name_from;
pub use reconcile::has_entry;
pub use reconcile::lemma_covered_source_plans_nothing;
pub use reconcile::lemma_divergent_is_renamed;
pub use reconcile::lemma_empty_source;
pub use reconcile::lemma_every_entry_accounted;
pub use reconcile::lemma_exact_match_skips;
pub use reconcile::lemma_find_name_from;
pub use reconcile::lemma_same_time_skips;
pub use reconcile::manifest_contains;
pub use reconcile::manifest_view;
pub use reconcile::plan_of;
pub use reconcile::plan_step;
pub use reconcile::reconcile;
pub use builder::hidden_name;
pub use builder::make_entry;
pub use builder::should_record;
pub use builder::spec_should_record;
pub use store::manifest_file;
pub use store::manifest_file_name;
pub use store::manifest_or_empty;
pub use store::reserved_dir;
pub use store::reserved_dir_name;
pub use cleanup::cleanup_targets;
pub use cleanup::lemma_plan_renames_are_marked;
pub use cleanup::spec_cleanup_targets;
pub use event::LogType;
pub use event::label_of;
pub use sync::SyncPhase;
pub use sync::backward_tag;
pub use sync::forward_tag;
pub use sync::lemma_forward_names_are_cleaned;
pub use sync::spec_sync_advance;
pub use sync::sync_advance;
pub use sync::sync_backward_tag;
pub use sync::sync_forward_tag;
