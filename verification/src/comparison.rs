//! An ordered collection of sequences sharing one combined plot: each
//! member keeps its own data file and contributes one directive line to a
//! single shared script, while the group's own configuration rules the
//! shared frame.

use vstd::prelude::*;

use crate::configuration::{is_default_except_date, lookup, Configuration, Style};
use crate::decimal::{dec_nat, usize_string};
use crate::errors::SavingError;
use crate::script::{build_data_path, build_plot_path, data_path_text, effective_id, plot_path_text, series_text};
use crate::process::{process_raw_data, Process};
use crate::sequence::{sequence_raw_data, Sequence};
use crate::traits::{Comparison, Configurable, Saveable};

verus! {

/// The base name of the data file of the member at position `i`: the
/// group's base name, an underscore, and the position.
pub open spec fn member_id(gid: Seq<char>, i: int) -> Seq<char> {
    gid + "_"@ + dec_nat(i as nat)
}

/// The directive lines of the members from position `i` on: the first
/// series is drawn by `plot`, every further one by `replot`, so the engine
/// draws all of them on one canvas. The data-file path of each series uses
/// the group's base name and extension; style, dashtype and title inside
/// the directive are the member's own.
pub open spec fn group_series_from(members: Seq<Sequence>, c: Configuration, i: int) -> Seq<char>
    decreases members.len() - i,
{
    if i < 0 || i >= members.len() {
        Seq::empty()
    } else {
        (if i == 0 {
            "plot "@
        } else {
            "replot "@
        }) + series_text(
            data_path_text(member_id(effective_id(c), i), c.extension@),
            members[i].config,
        ) + group_series_from(members, c, i + 1)
    }
}

/// The combined script: the shared preamble from the group's own
/// configuration, then one directive line per member.
pub open spec fn sequences_script(members: Seq<Sequence>, c: Configuration) -> Seq<char> {
    crate::script::base_script(c) + group_series_from(members, c, 0)
}

/// An ordered group of sequences plotted together, with one group-level
/// configuration for the shared frame.
#[derive(Debug, Clone)]
pub struct Sequences {
    pub members: Vec<Sequence>,
    pub config: Configuration,
}

/// The group's base name where one is set, or the empty base name.
fn effective_id_of(config: &Configuration) -> (r: String)
    ensures
        r@ == effective_id(*config),
{
    match &config.id {
        Some(id) => id.clone(),
        None => String::new(),
    }
}

impl Sequences {
    /// A group holding the seed as its only member, under a default
    /// group-level configuration.
    pub fn new(seed: Sequence) -> (r: Self)
        ensures
            r.members@ =~= seq![seed],
            is_default_except_date(r.config),
    {
        let mut members: Vec<Sequence> = Vec::new();
        members.push(seed);
        Sequences { members, config: Configuration::new() }
    }

    /// The combined script for all members on one canvas.
    pub fn plot_script(&self) -> (r: String)
        ensures
            r@ == sequences_script(self.members@, self.config),
    {
        let mut out = self.config.base_plot_script();
        let ghost head = out@;
        let eid = effective_id_of(&self.config);
        let mut i: usize = 0;
        while i < self.members.len()
            invariant
                i <= self.members@.len(),
                eid@ == effective_id(self.config),
                out@ + group_series_from(self.members@, self.config, i as int) == head
                    + group_series_from(self.members@, self.config, 0),
            decreases self.members@.len() - i,
        {
            let ghost before = out@;
            if i == 0 {
                out.append("plot ");
            } else {
                out.append("replot ");
            }
            let mut mid = eid.clone();
            mid.append("_");
            let rendered = usize_string(i);
            mid.append(rendered.as_str());
            proof {
                assert(mid@ =~= member_id(effective_id(self.config), i as int));
            }
            let path = build_data_path(mid.as_str(), self.config.extension.as_str());
            let entry = self.members[i].config.series_entry(path.as_str());
            out.append(entry.as_str());
            proof {
                assert(out@ + group_series_from(self.members@, self.config, i as int + 1) =~= before
                    + group_series_from(self.members@, self.config, i as int));
            }
            i += 1;
        }
        proof {
            assert(out@ =~= sequences_script(self.members@, self.config));
        }
        out
    }

    /// One data-file artifact per member, in member order: each member's
    /// raw table under the group's base name and extension. Owed exactly
    /// when a group id is set.
    pub fn save_targets(&self) -> (r: Result<Vec<(String, String)>, SavingError>)
        ensures
            match r {
                Ok(v) => self.config.id is Some && v@.len() == self.members@.len() && forall|
                    i: int,
                |
                    0 <= i < v@.len() ==> (#[trigger] v@[i]).0@ == data_path_text(
                        member_id(effective_id(self.config), i),
                        self.config.extension@,
                    ) && v@[i].1@ == sequence_raw_data(self.members@[i].data@),
                Err(e) => self.config.id is None && e == SavingError::MissingId,
            },
    {
        if self.config.get_checked_id().is_err() {
            return Err(SavingError::MissingId);
        }
        let eid = effective_id_of(&self.config);
        let mut targets: Vec<(String, String)> = Vec::new();
        let mut i: usize = 0;
        while i < self.members.len()
            invariant
                i <= self.members@.len(),
                self.config.id is Some,
                eid@ == effective_id(self.config),
                targets@.len() == i,
                forall|j: int|
                    0 <= j < i ==> (#[trigger] targets@[j]).0@ == data_path_text(
                        member_id(effective_id(self.config), j),
                        self.config.extension@,
                    ) && targets@[j].1@ == sequence_raw_data(self.members@[j].data@),
            decreases self.members@.len() - i,
        {
            let mut mid = eid.clone();
            mid.append("_");
            let rendered = usize_string(i);
            mid.append(rendered.as_str());
            proof {
                assert(mid@ =~= member_id(effective_id(self.config), i as int));
            }
            let path = build_data_path(mid.as_str(), self.config.extension.as_str());
            let content = self.members[i].raw_data();
            targets.push((path, content));
            i += 1;
        }
        Ok(targets)
    }

    /// The script artifact for the combined plot. Owed exactly when a
    /// group id is set.
    pub fn write_plot_script_target(&self) -> (r: Result<(String, String), SavingError>)
        ensures
            match r {
                Ok(pc) => self.config.id is Some && pc.0@ == plot_path_text(
                    effective_id(self.config),
                ) && pc.1@ == sequences_script(self.members@, self.config),
                Err(e) => self.config.id is None && e == SavingError::MissingId,
            },
    {
        match self.config.get_checked_id() {
            Ok(id) => {
                let path = build_plot_path(id.as_str());
                Ok((path, self.plot_script()))
            },
            Err(e) => Err(e),
        }
    }
}

impl Configurable for Sequences {
    open spec fn cfg(&self) -> Configuration {
        self.config
    }

    fn configuration_as_ref(&self) -> (r: &Configuration) {
        &self.config
    }
}

impl From<Sequence> for Sequences {
    /// Seeds a group from one entity; the group itself starts under a
    /// default configuration.
    fn from(seed: Sequence) -> (r: Sequences)
        ensures
            r.members@ =~= seq![seed],
            is_default_except_date(r.config),
    {
        Sequences::new(seed)
    }
}

impl vstd::std_specs::convert::FromSpecImpl<Sequence> for Sequences {
    open spec fn obeys_from_spec() -> bool {
        false
    }

    open spec fn from_spec(seed: Sequence) -> Sequences {
        vstd::pervasive::arbitrary()
    }
}

impl Comparison<Sequence> for Sequences {
    open spec fn group_members(&self) -> Seq<Sequence> {
        self.members@
    }

    fn add(&mut self, other: Sequence) {
        self.members.push(other);
    }

    fn add_many(&mut self, others: Vec<Sequence>) {
        let ghost all = others@;
        let mut remaining = others;
        while remaining.len() > 0
            invariant
                self.members@ + remaining@ == old(self).members@ + all,
                self.config == old(self).config,
            decreases remaining@.len(),
        {
            let item = remaining.remove(0);
            self.members.push(item);
            proof {
                assert(self.members@ + remaining@ =~= old(self).members@ + all);
            }
        }
        proof {
            assert(remaining@ =~= Seq::<Sequence>::empty());
            assert(self.members@ =~= self.members@ + remaining@);
        }
    }
}


impl Sequences {
    /// Stores the title and returns the entity for chaining.
    pub fn title(self, value: String) -> (r: Self)
        ensures
            r == (Sequences { config: (Configuration { title: Some(value), ..self.config }), ..self }),
    {
        let mut this = self;
        this.config.title(value);
        this
    }

    /// Stores the base of a logarithmic x scale, as the text the script
    /// will carry.
    pub fn logx(self, value: String) -> (r: Self)
        ensures
            r == (Sequences { config: (Configuration { log_x: Some(value), ..self.config }), ..self }),
    {
        let mut this = self;
        this.config.logx(value);
        this
    }

    /// Stores the base of a logarithmic y scale, as the text the script
    /// will carry.
    pub fn logy(self, value: String) -> (r: Self)
        ensures
            r == (Sequences { config: (Configuration { log_y: Some(value), ..self.config }), ..self }),
    {
        let mut this = self;
        this.config.logy(value);
        this
    }

    /// Stores the x-axis label and returns the entity for chaining.
    pub fn labelx(self, value: String) -> (r: Self)
        ensures
            r == (Sequences { config: (Configuration { label_x: Some(value), ..self.config }), ..self }),
    {
        let mut this = self;
        this.config.labelx(value);
        this
    }

    /// Stores the y-axis label and returns the entity for chaining.
    pub fn labely(self, value: String) -> (r: Self)
        ensures
            r == (Sequences { config: (Configuration { label_y: Some(value), ..self.config }), ..self }),
    {
        let mut this = self;
        this.config.labely(value);
        this
    }

    /// Stores the inclusive x range, as the texts the script will carry;
    /// their ordering is the caller's responsibility.
    pub fn rangex(self, left: String, right: String) -> (r: Self)
        ensures
            r == (Sequences { config: (Configuration { range_x: Some((left, right)), ..self.config }), ..self }),
    {
        let mut this = self;
        this.config.rangex(left, right);
        this
    }

    /// Stores the inclusive y range, as the texts the script will carry.
    pub fn rangey(self, down: String, up: String) -> (r: Self)
        ensures
            r == (Sequences { config: (Configuration { range_y: Some((down, up)), ..self.config }), ..self }),
    {
        let mut this = self;
        this.config.rangey(down, up);
        this
    }

    /// Stores the data-file extension and returns the entity for chaining.
    pub fn extension(self, value: String) -> (r: Self)
        ensures
            r == (Sequences { config: (Configuration { extension: value, ..self.config }), ..self }),
    {
        let mut this = self;
        this.config.extension(value);
        this
    }

    /// Switches the commented header block of the data file on or off.
    pub fn header(self, value: bool) -> (r: Self)
        ensures
            r == (Sequences { config: (Configuration { header: value, ..self.config }), ..self }),
    {
        let mut this = self;
        this.config.header(value);
        this
    }

    /// Stores the render style and returns the entity for chaining.
    pub fn style(self, value: Style) -> (r: Self)
        ensures
            r == (Sequences { config: (Configuration { style: value, ..self.config }), ..self }),
    {
        let mut this = self;
        this.config.style(value);
        this
    }

    /// Stores the dash type and returns the entity for chaining.
    pub fn dashtype(self, value: usize) -> (r: Self)
        ensures
            r == (Sequences { config: (Configuration { dashtype: Some(value), ..self.config }), ..self }),
    {
        let mut this = self;
        this.config.dashtype(value);
        this
    }

    /// Stores the timestamp text shown in the header block.
    pub fn date(self, value: String) -> (r: Self)
        ensures
            r == (Sequences { config: (Configuration { date: value, ..self.config }), ..self }),
    {
        let mut this = self;
        this.config.date(value);
        this
    }

    /// Stores the identifier that becomes the base file name.
    pub fn id(self, value: String) -> (r: Self)
        ensures
            r == (Sequences { config: (Configuration { id: Some(value), ..self.config }), ..self }),
    {
        let mut this = self;
        this.config.id(value);
        this
    }

    /// Stores `value` under `key` among the custom pairs, overwriting that
    /// key only.
    pub fn custom(self, key: String, value: String) -> (r: Self)
        ensures
            r == (Sequences { config: (Configuration { custom: r.config.custom, ..self.config }), ..self }),
            forall|k: Seq<char>| #[trigger] lookup(r.config.custom@, k) == (if k == key@ {
                Some(value@)
            } else {
                lookup(self.config.custom@, k)
            }),
    {
        let mut this = self;
        this.config.custom(key, value);
        this
    }
}


/// The directive lines of a process group's members from position `i` on,
/// in the same `plot`/`replot` form as a sequence group.
pub open spec fn process_group_series_from(
    members: Seq<Process>,
    c: Configuration,
    i: int,
) -> Seq<char>
    decreases members.len() - i,
{
    if i < 0 || i >= members.len() {
        Seq::empty()
    } else {
        (if i == 0 {
            "plot "@
        } else {
            "replot "@
        }) + series_text(
            data_path_text(member_id(effective_id(c), i), c.extension@),
            members[i].config,
        ) + process_group_series_from(members, c, i + 1)
    }
}

/// The combined script of a process group.
pub open spec fn processes_script(members: Seq<Process>, c: Configuration) -> Seq<char> {
    crate::script::base_script(c) + process_group_series_from(members, c, 0)
}

/// An ordered group of processes plotted together, with one group-level
/// configuration for the shared frame.
#[derive(Debug, Clone)]
pub struct Processes {
    pub members: Vec<Process>,
    pub config: Configuration,
}

impl Processes {
    /// A group holding the seed as its only member, under a default
    /// group-level configuration.
    pub fn new(seed: Process) -> (r: Self)
        ensures
            r.members@ =~= seq![seed],
            is_default_except_date(r.config),
    {
        let mut members: Vec<Process> = Vec::new();
        members.push(seed);
        Processes { members, config: Configuration::new() }
    }

    /// The combined script for all members on one canvas.
    pub fn plot_script(&self) -> (r: String)
        ensures
            r@ == processes_script(self.members@, self.config),
    {
        let mut out = self.config.base_plot_script();
        let ghost head = out@;
        let eid = effective_id_of(&self.config);
        let mut i: usize = 0;
        while i < self.members.len()
            invariant
                i <= self.members@.len(),
                eid@ == effective_id(self.config),
                out@ + process_group_series_from(self.members@, self.config, i as int) == head
                    + process_group_series_from(self.members@, self.config, 0),
            decreases self.members@.len() - i,
        {
            let ghost before = out@;
            if i == 0 {
                out.append("plot ");
            } else {
                out.append("replot ");
            }
            let mut mid = eid.clone();
            mid.append("_");
            let rendered = usize_string(i);
            mid.append(rendered.as_str());
            proof {
                assert(mid@ =~= member_id(effective_id(self.config), i as int));
            }
            let path = build_data_path(mid.as_str(), self.config.extension.as_str());
            let entry = self.members[i].config.series_entry(path.as_str());
            out.append(entry.as_str());
            proof {
                assert(out@ + process_group_series_from(self.members@, self.config, i as int + 1)
                    =~= before + process_group_series_from(self.members@, self.config, i as int));
            }
            i += 1;
        }
        proof {
            assert(out@ =~= processes_script(self.members@, self.config));
        }
        out
    }

    /// One data-file artifact per member, in member order: each member's
    /// paired table under the group's base name and extension. Owed
    /// exactly when a group id is set.
    pub fn save_targets(&self) -> (r: Result<Vec<(String, String)>, SavingError>)
        ensures
            match r {
                Ok(v) => self.config.id is Some && v@.len() == self.members@.len() && forall|
                    i: int,
                |
                    0 <= i < v@.len() ==> (#[trigger] v@[i]).0@ == data_path_text(
                        member_id(effective_id(self.config), i),
                        self.config.extension@,
                    ) && v@[i].1@ == process_raw_data(
                        self.members@[i].x@,
                        self.members@[i].y@,
                    ),
                Err(e) => self.config.id is None && e == SavingError::MissingId,
            },
    {
        if self.config.get_checked_id().is_err() {
            return Err(SavingError::MissingId);
        }
        let eid = effective_id_of(&self.config);
        let mut targets: Vec<(String, String)> = Vec::new();
        let mut i: usize = 0;
        while i < self.members.len()
            invariant
                i <= self.members@.len(),
                self.config.id is Some,
                eid@ == effective_id(self.config),
                targets@.len() == i,
                forall|j: int|
                    0 <= j < i ==> (#[trigger] targets@[j]).0@ == data_path_text(
                        member_id(effective_id(self.config), j),
                        self.config.extension@,
                    ) && targets@[j].1@ == process_raw_data(
                        self.members@[j].x@,
                        self.members@[j].y@,
                    ),
            decreases self.members@.len() - i,
        {
            let mut mid = eid.clone();
            mid.append("_");
            let rendered = usize_string(i);
            mid.append(rendered.as_str());
            proof {
                assert(mid@ =~= member_id(effective_id(self.config), i as int));
            }
            let path = build_data_path(mid.as_str(), self.config.extension.as_str());
            let content = self.members[i].raw_data();
            targets.push((path, content));
            i += 1;
        }
        Ok(targets)
    }

    /// The script artifact for the combined plot. Owed exactly when a
    /// group id is set.
    pub fn write_plot_script_target(&self) -> (r: Result<(String, String), SavingError>)
        ensures
            match r {
                Ok(pc) => self.config.id is Some && pc.0@ == plot_path_text(
                    effective_id(self.config),
                ) && pc.1@ == processes_script(self.members@, self.config),
                Err(e) => self.config.id is None && e == SavingError::MissingId,
            },
    {
        match self.config.get_checked_id() {
            Ok(id) => {
                let path = build_plot_path(id.as_str());
                Ok((path, self.plot_script()))
            },
            Err(e) => Err(e),
        }
    }

    /// Stores the identifier that becomes the group's base file name.
    pub fn id(self, value: String) -> (r: Self)
        ensures
            r == (Processes { config: (Configuration { id: Some(value), ..self.config }), ..self }),
    {
        let mut this = self;
        this.config.id(value);
        this
    }

    /// Stores the title shown on the shared frame.
    pub fn title(self, value: String) -> (r: Self)
        ensures
            r == (Processes { config: (Configuration { title: Some(value), ..self.config }), ..self }),
    {
        let mut this = self;
        this.config.title(value);
        this
    }
}

impl Configurable for Processes {
    open spec fn cfg(&self) -> Configuration {
        self.config
    }

    fn configuration_as_ref(&self) -> (r: &Configuration) {
        &self.config
    }
}

impl From<Process> for Processes {
    /// Seeds a group from one entity; the group itself starts under a
    /// default configuration.
    fn from(seed: Process) -> (r: Processes)
        ensures
            r.members@ =~= seq![seed],
            is_default_except_date(r.config),
    {
        Processes::new(seed)
    }
}

impl vstd::std_specs::convert::FromSpecImpl<Process> for Processes {
    open spec fn obeys_from_spec() -> bool {
        false
    }

    open spec fn from_spec(seed: Process) -> Processes {
        vstd::pervasive::arbitrary()
    }
}

impl Comparison<Process> for Processes {
    open spec fn group_members(&self) -> Seq<Process> {
        self.members@
    }

    fn add(&mut self, other: Process) {
        self.members.push(other);
    }

    fn add_many(&mut self, others: Vec<Process>) {
        let ghost all = others@;
        let mut remaining = others;
        while remaining.len() > 0
            invariant
                self.members@ + remaining@ == old(self).members@ + all,
                self.config == old(self).config,
            decreases remaining@.len(),
        {
            let item = remaining.remove(0);
            self.members.push(item);
            proof {
                assert(self.members@ + remaining@ =~= old(self).members@ + all);
            }
        }
        proof {
            assert(remaining@ =~= Seq::<Process>::empty());
            assert(self.members@ =~= self.members@ + remaining@);
        }
    }
}


impl Sequences {
    /// `logx` under its other name.
    pub fn xlog(self, value: String) -> (r: Self)
        ensures
            r == (Sequences { config: (Configuration { log_x: Some(value), ..self.config }), ..self }),
    {
        self.logx(value)
    }

    /// `logy` under its other name.
    pub fn ylog(self, value: String) -> (r: Self)
        ensures
            r == (Sequences { config: (Configuration { log_y: Some(value), ..self.config }), ..self }),
    {
        self.logy(value)
    }

    /// `labelx` under its other name.
    pub fn xlabel(self, value: String) -> (r: Self)
        ensures
            r == (Sequences { config: (Configuration { label_x: Some(value), ..self.config }), ..self }),
    {
        self.labelx(value)
    }

    /// `labely` under its other name.
    pub fn ylabel(self, value: String) -> (r: Self)
        ensures
            r == (Sequences { config: (Configuration { label_y: Some(value), ..self.config }), ..self }),
    {
        self.labely(value)
    }

    /// `rangex` under its other name.
    pub fn xrange(self, left: String, right: String) -> (r: Self)
        ensures
            r == (Sequences { config: (Configuration { range_x: Some((left, right)), ..self.config }), ..self }),
    {
        self.rangex(left, right)
    }

    /// `rangey` under its other name.
    pub fn yrange(self, down: String, up: String) -> (r: Self)
        ensures
            r == (Sequences { config: (Configuration { range_y: Some((down, up)), ..self.config }), ..self }),
    {
        self.rangey(down, up)
    }
}

} // verus!
