//! The course of importing a validated settings file into the configuration tables inside one
//! transaction: optionally clear the tables, write the servers, read the server table back,
//! write the schedulers and listeners against it, commit. Each step decides the next database
//! action from the answer to the last one; the caller carries the actions out.
use vstd::prelude::*;
use crate::config_management::{
    spec_config_error_message, spec_validate_settings, validate_settings,
    item_imports, server_imports, spec_import_error_message, spec_item_imports_error, spec_item_rows,
    spec_server_rows, spec_server_rows_error, ImportError, ItemImports, ServerImport,
};
use crate::settings::{spec_entries, WorkflowSettingFile};

verus! {

/// The database action an import waits on.
#[derive(Clone, Copy, Debug, PartialEq, Eq, Structural)]
pub enum ImportStage {
    Clearing,
    WritingServers,
    ReadingServerRows,
    WritingItems,
    Committing,
    Finished,
}

/// An import under way: the file being imported and the action it waits on.
#[derive(Clone, Debug)]
pub struct ImportRun {
    pub file: WorkflowSettingFile,
    pub stage: ImportStage,
}

/// The answer to the last database action.
pub enum ImportEvent {
    /// The action was carried out.
    Done,
    /// The server table was read: its `(name, id)` rows.
    ServerRows(Vec<(String, i64)>),
    /// The database refused the action, with its description.
    Failed(String),
}

/// The next thing to do.
pub enum ImportAction {
    /// Delete every listener, scheduler and server.
    ClearTables,
    /// Insert these server rows.
    WriteServers(Vec<ServerImport>),
    /// Read the `(name, id)` rows of the server table.
    ReadServerRows,
    /// Insert these scheduler and listener rows.
    WriteItems(ItemImports),
    /// Commit the transaction.
    Commit,
    /// End the import: the counts of imported servers, schedulers and listeners, or the error
    /// (the transaction is then dropped).
    Finish(Result<(i32, i32, i32), String>),
}

/// The counts an import of the file reports: its servers, schedulers and listeners.
pub open spec fn spec_import_counts(file: WorkflowSettingFile) -> (int, int, int) {
    (file.jobworkerp@.len() as int, spec_entries(file.schedulers).len() as int, spec_entries(file.listeners).len() as int)
}

/// Whether the counts of the file fit the reported numbers.
pub open spec fn spec_counts_fit(file: WorkflowSettingFile) -> bool {
    let (s, c, l) = spec_import_counts(file);
    s <= i32::MAX && c <= i32::MAX && l <= i32::MAX
}

/// Whether the event answers the action the stage waits on.
pub open spec fn spec_answers(stage: ImportStage, event: ImportEvent) -> bool {
    match event {
        ImportEvent::Failed(_) => stage != ImportStage::Finished,
        ImportEvent::ServerRows(_) => stage == ImportStage::ReadingServerRows,
        ImportEvent::Done => stage != ImportStage::Finished && stage != ImportStage::ReadingServerRows,
    }
}

/// Whether `(run, action)` is the step that writes the file's servers: their rows when every
/// address parses, else the end with the error of the first that does not.
pub open spec fn spec_servers_step(file: WorkflowSettingFile, run: ImportRun, action: ImportAction) -> bool {
    &&& run.file == file
    &&& match action {
        ImportAction::WriteServers(v) => run.stage == ImportStage::WritingServers && spec_server_rows(file, v@),
        ImportAction::Finish(Err(m)) => run.stage == ImportStage::Finished && exists|e: ImportError|
            spec_server_rows_error(file, e) && m@ == #[trigger] spec_import_error_message(e.kind, e.item@, e.server@),
        _ => false,
    }
}

/// Whether `(run, action)` is the step that writes the file's schedulers and listeners against
/// the server rows: their rows when every entry resolves, else the end with the first error.
pub open spec fn spec_items_step(file: WorkflowSettingFile, rows: Seq<(String, i64)>, run: ImportRun, action: ImportAction) -> bool {
    &&& run.file == file
    &&& match spec_item_imports_error(file, rows) {
        None => {
            &&& run.stage == ImportStage::WritingItems
            &&& action matches ImportAction::WriteItems(v) && spec_item_rows(file, rows, v)
        },
        Some((kind, item, server)) => {
            &&& run.stage == ImportStage::Finished
            &&& action matches ImportAction::Finish(Err(m)) && m@ == spec_import_error_message(kind, item, server)
        },
    }
}

fn servers_step(file: WorkflowSettingFile) -> (r: (ImportRun, ImportAction))
    ensures
        spec_servers_step(file, r.0, r.1),
{
    match server_imports(&file) {
        Ok(v) => (ImportRun { file, stage: ImportStage::WritingServers }, ImportAction::WriteServers(v)),
        Err(e) => {
            let m = e.message();
            (ImportRun { file, stage: ImportStage::Finished }, ImportAction::Finish(Err(m)))
        },
    }
}

impl ImportRun {
    /// Starts the import of a validated file: with `overwrite_existing` the tables are cleared
    /// first, else the servers are written at once.
    pub fn begin(file: WorkflowSettingFile, overwrite_existing: bool) -> (r: (ImportRun, ImportAction))
        requires
            spec_counts_fit(file),
        ensures
            overwrite_existing ==> r.0.file == file && r.0.stage == ImportStage::Clearing && r.1 is ClearTables,
            !overwrite_existing ==> spec_servers_step(file, r.0, r.1),
    {
        if overwrite_existing {
            (ImportRun { file, stage: ImportStage::Clearing }, ImportAction::ClearTables)
        } else {
            servers_step(file)
        }
    }

    /// Starts the import of a parsed file after validating it: an invalid file ends the import
    /// with the validation error before any database action (the ended run keeps no file); a
    /// valid one starts as `begin` does.
    pub fn begin_checked(file: WorkflowSettingFile, overwrite_existing: bool) -> (r: (ImportRun, ImportAction))
        requires
            spec_counts_fit(file),
        ensures
            match spec_validate_settings(file) {
                Some((kind, subject, value)) => {
                    &&& r.0.stage == ImportStage::Finished
                    &&& r.1 matches ImportAction::Finish(Err(m)) && m@ == spec_config_error_message(kind, subject, value)
                },
                None => {
                    &&& overwrite_existing ==> r.0.file == file && r.0.stage == ImportStage::Clearing && r.1 is ClearTables
                    &&& !overwrite_existing ==> spec_servers_step(file, r.0, r.1)
                },
            },
    {
        match validate_settings(file) {
            Ok(f) => ImportRun::begin(f, overwrite_existing),
            Err(e) => {
                let m = e.message();
                let rejected = WorkflowSettingFile { jobworkerp: Vec::new(), listeners: None, schedulers: None };
                (ImportRun { file: rejected, stage: ImportStage::Finished }, ImportAction::Finish(Err(m)))
            },
        }
    }

    /// The next step after the answer to the last action: a refusal ends the import with its
    /// description, and the transaction is dropped uncommitted (a commit is asked for only once
    /// the schedulers and listeners are written); otherwise the import goes on clearing,
    /// writing servers, reading them back, writing schedulers and listeners, committing, and
    /// ends with the counts.
    pub fn step(self, event: ImportEvent) -> (r: (ImportRun, ImportAction))
        requires
            spec_answers(self.stage, event),
            spec_counts_fit(self.file),
        ensures
            r.1 is Commit ==> self.stage == ImportStage::WritingItems && event is Done,
            r.0.stage == ImportStage::Finished <==> r.1 is Finish,
            match event {
                ImportEvent::Failed(m) => {
                    &&& r.0.file == self.file && r.0.stage == ImportStage::Finished
                    &&& r.1 matches ImportAction::Finish(Err(e)) && e@ == m@
                },
                ImportEvent::ServerRows(rows) => spec_items_step(self.file, rows@, r.0, r.1),
                ImportEvent::Done => match self.stage {
                    ImportStage::Clearing => spec_servers_step(self.file, r.0, r.1),
                    ImportStage::WritingServers => r.0.file == self.file && r.0.stage == ImportStage::ReadingServerRows
                        && r.1 is ReadServerRows,
                    ImportStage::WritingItems => r.0.file == self.file && r.0.stage == ImportStage::Committing
                        && r.1 is Commit,
                    _ => {
                        let (s, c, l) = spec_import_counts(self.file);
                        &&& r.0.file == self.file && r.0.stage == ImportStage::Finished
                        &&& r.1 matches ImportAction::Finish(Ok((s2, c2, l2))) && s2 == s && c2 == c && l2 == l
                    },
                },
            },
    {
        let file = self.file;
        match event {
            ImportEvent::Failed(m) => (ImportRun { file, stage: ImportStage::Finished }, ImportAction::Finish(Err(m))),
            ImportEvent::ServerRows(rows) => match item_imports(&file, &rows) {
                Ok(v) => (ImportRun { file, stage: ImportStage::WritingItems }, ImportAction::WriteItems(v)),
                Err(e) => {
                    let m = e.message();
                    (ImportRun { file, stage: ImportStage::Finished }, ImportAction::Finish(Err(m)))
                },
            },
            ImportEvent::Done => match self.stage {
                ImportStage::Clearing => servers_step(file),
                ImportStage::WritingServers => (ImportRun { file, stage: ImportStage::ReadingServerRows }, ImportAction::ReadServerRows),
                ImportStage::WritingItems => (ImportRun { file, stage: ImportStage::Committing }, ImportAction::Commit),
                _ => {
                    let servers = file.jobworkerp.len() as i32;
                    let schedulers: i32 = match &file.schedulers {
                        Some(v) => v.len() as i32,
                        None => 0,
                    };
                    let listeners: i32 = match &file.listeners {
                        Some(v) => v.len() as i32,
                        None => 0,
                    };
                    (ImportRun { file, stage: ImportStage::Finished }, ImportAction::Finish(Ok((servers, schedulers, listeners))))
                },
            },
        }
    }
}

} // verus!
