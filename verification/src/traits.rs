//! The capability set every plottable kind implements, and the terminal
//! operations built on it.
//!
//! *Configurable* exposes the one owned [`Configuration`]; *Saveable*
//! renders the raw data payload; *Plotable* renders the engine script. The
//! terminal operations here compute each artifact — output path and exact
//! byte content — as values; writing the files and spawning the engine is
//! the caller's part.

use vstd::prelude::*;

use crate::configuration::{is_default_except_date, Configuration};
use crate::errors::SavingError;
use crate::script::{build_data_path, build_plot_path, data_path_text, effective_id, header_block, plot_path_text};

verus! {

/// Read access to the one owned configuration.
pub trait Configurable {
    /// The owned configuration, as a mathematical value.
    spec fn cfg(&self) -> Configuration;

    /// The owned configuration.
    fn configuration_as_ref(&self) -> (r: &Configuration)
        ensures
            *r == self.cfg(),
    ;
}

/// A kind that can render its data as the textual payload of a data file.
pub trait Saveable: Configurable {
    /// The exact text of the raw data payload.
    spec fn raw_data_text(&self) -> Seq<char>;

    /// The raw data payload: tab-separated columns, one record per line.
    fn raw_data(&self) -> (r: String)
        ensures
            r@ == self.raw_data_text(),
    ;
}

/// A kind that can render the script driving the external plotting engine.
pub trait Plotable: Saveable {
    /// The exact text of the engine script.
    spec fn plot_script_text(&self) -> Seq<char>;

    /// The engine script for this entity.
    fn plot_script(&self) -> (r: String)
        ensures
            r@ == self.plot_script_text(),
    ;

    /// Stores `id` as the entity's identifier, leaving the data untouched.
    fn set_id(&mut self, id: String)
        ensures
            final(self).cfg() == (Configuration { id: Some(id), ..old(self).cfg() }),
            final(self).raw_data_text() == old(self).raw_data_text(),
    ;
}

/// The complete content of the entity's data file: the optional commented
/// header block followed by the raw data payload.
pub open spec fn save_content_text<T: Saveable>(t: &T) -> Seq<char> {
    header_block(t.cfg()) + t.raw_data_text()
}

/// The data-file artifact: its path under the data directory and its exact
/// content. Owed exactly when an id is set; the precondition-failure kind
/// otherwise.
pub fn save_target<T: Saveable>(t: &T) -> (r: Result<(String, String), SavingError>)
    ensures
        match r {
            Ok(pc) => t.cfg().id is Some && pc.0@ == data_path_text(
                effective_id(t.cfg()),
                t.cfg().extension@,
            ) && pc.1@ == save_content_text(t),
            Err(e) => t.cfg().id is None && e == SavingError::MissingId,
        },
{
    let config = t.configuration_as_ref();
    match config.get_checked_id() {
        Ok(id) => {
            let path = build_data_path(id.as_str(), config.get_extension());
            let content = save_content(t);
            Ok((path, content))
        },
        Err(e) => Err(e),
    }
}

/// The same artifact parameterized by an explicit id for the file name,
/// bypassing the checked-id precondition; the header block still shows only
/// the stored id, if any.
pub fn save_with_id_target<T: Saveable>(t: &T, id: &str) -> (r: (String, String))
    ensures
        r.0@ == data_path_text(id@, t.cfg().extension@),
        r.1@ == save_content_text(t),
{
    let config = t.configuration_as_ref();
    let path = build_data_path(id, config.get_extension());
    (path, save_content(t))
}

/// The complete data-file content: header block, then raw data.
pub fn save_content<T: Saveable>(t: &T) -> (r: String)
    ensures
        r@ == save_content_text(t),
{
    let config = t.configuration_as_ref();
    let mut out = config.header_text();
    let data = t.raw_data();
    out.append(data.as_str());
    out
}

/// The script artifact: its path under the script directory and its exact
/// content. Owed exactly when an id is set.
pub fn write_plot_script_target<T: Plotable>(t: &T) -> (r: Result<(String, String), SavingError>)
    ensures
        match r {
            Ok(pc) => t.cfg().id is Some && pc.0@ == plot_path_text(effective_id(t.cfg()))
                && pc.1@ == t.plot_script_text(),
            Err(e) => t.cfg().id is None && e == SavingError::MissingId,
        },
{
    let config = t.configuration_as_ref();
    match config.get_checked_id() {
        Ok(id) => {
            let path = build_plot_path(id.as_str());
            Ok((path, t.plot_script()))
        },
        Err(e) => Err(e),
    }
}

/// Everything a full `plot` run writes before the engine is spawned: both
/// artifacts, data and script, for the entity under the given id.
pub struct PlotArtifacts {
    pub data_path: String,
    pub data_content: String,
    pub script_path: String,
    pub script_content: String,
}

/// Sets `id` on the entity and computes both artifacts of a `plot` run.
/// The caller writes the two files and then spawns the engine on the script
/// path; nothing is owed of the engine itself.
pub fn plot_targets<T: Plotable>(t: &mut T, id: String) -> (r: PlotArtifacts)
    ensures
        final(t).cfg() == (Configuration { id: Some(id), ..old(t).cfg() }),
        r.data_path@ == data_path_text(id@, old(t).cfg().extension@),
        r.data_content@ == header_block(final(t).cfg()) + old(t).raw_data_text(),
        r.script_path@ == plot_path_text(id@),
        r.script_content@ == final(t).plot_script_text(),
{
    t.set_id(id);
    let script = match write_plot_script_target(t) {
        Ok(pc) => pc,
        Err(_) => {
            proof {
                assert(false);
            }
            (String::new(), String::new())
        },
    };
    let data = match save_target(t) {
        Ok(pc) => pc,
        Err(_) => {
            proof {
                assert(false);
            }
            (String::new(), String::new())
        },
    };
    PlotArtifacts {
        data_path: data.0,
        data_content: data.1,
        script_path: script.0,
        script_content: script.1,
    }
}

/// The common script preamble of any configurable entity: a pure function
/// of its configuration, shared by every kind-specific script builder.
pub fn base_plot_script<T: Configurable>(t: &T) -> (r: String)
    ensures
        r@ == crate::script::base_script(t.cfg()),
{
    t.configuration_as_ref().base_plot_script()
}

/// Writing the plot script twice from identical configuration and data
/// produces byte-identical content: the script artifact is a pure function
/// of the entity's state, as each implementation's contract pins it.
pub proof fn lemma_write_plot_script_idempotent<T: Plotable>(
    t: &T,
    content1: Seq<char>,
    content2: Seq<char>,
)
    requires
        content1 == t.plot_script_text(),
        content2 == t.plot_script_text(),
    ensures
        content1 == content2,
{
}

/// Lifts a plain series into a plottable [`Sequence`](crate::sequence::Sequence).
pub trait Preexplore {
    /// The series about to be lifted.
    spec fn source_data(&self) -> Seq<i64>;

    /// The series as a sequence entity with a default configuration.
    fn preexplore(self) -> (s: crate::sequence::Sequence) where Self: Sized
        ensures
            s.data@ == self.source_data(),
            is_default_except_date(s.config),
    ;
}

impl Preexplore for Vec<i64> {
    open spec fn source_data(&self) -> Seq<i64> {
        self@
    }

    fn preexplore(self) -> (s: crate::sequence::Sequence)
        ensures
            s.data@ == self@,
            is_default_except_date(s.config),
    {
        crate::sequence::Sequence::new(self)
    }
}

/// Lifts a pair of plain series into a plottable
/// [`Process`](crate::process::Process).
pub trait PreexploreProcess {
    /// The pair of series about to be lifted.
    spec fn source_x(&self) -> Seq<i64>;

    spec fn source_y(&self) -> Seq<i64>;

    /// The pair as a process entity with a default configuration.
    fn preexplore(self) -> (p: crate::process::Process) where Self: Sized
        ensures
            p.x@ == self.source_x(),
            p.y@ == self.source_y(),
            is_default_except_date(p.config),
    ;
}

impl PreexploreProcess for (Vec<i64>, Vec<i64>) {
    open spec fn source_x(&self) -> Seq<i64> {
        self.0@
    }

    open spec fn source_y(&self) -> Seq<i64> {
        self.1@
    }

    fn preexplore(self) -> (p: crate::process::Process)
        ensures
            p.x@ == self.0@,
            p.y@ == self.1@,
            is_default_except_date(p.config),
    {
        crate::process::Process::new(self.0, self.1)
    }
}

/// An ordered collection of same-kind entities sharing one combined plot,
/// seeded from one entity and grown by addition. Growing the group touches
/// nothing but the member list: the group-level configuration is kept.
pub trait Comparison<T>: Sized + From<T> + Configurable {
    /// The members, in the order they render.
    spec fn group_members(&self) -> Seq<T>;

    /// Appends one more entity to the group, keeping the group-level
    /// configuration.
    fn add(&mut self, other: T)
        ensures
            final(self).group_members() == old(self).group_members().push(other),
            final(self).cfg() == old(self).cfg(),
    ;

    /// Folds `add` over the given entities, in order, keeping the
    /// group-level configuration. An empty addition leaves the group
    /// unchanged.
    fn add_many(&mut self, others: Vec<T>)
        ensures
            final(self).group_members() == old(self).group_members() + others@,
            final(self).cfg() == old(self).cfg(),
    ;
}

} // verus!
