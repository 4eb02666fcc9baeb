//! A pair of equal-role series, rendered as a two-column table and a
//! single-series script.

use vstd::prelude::*;

use crate::configuration::{is_default_except_date, lookup, Configuration, Style};
use crate::decimal::{dec_int, i64_string};
use crate::script::single_plot_script;
use crate::traits::{Configurable, Plotable, Saveable};

verus! {

/// The number of matched pairs: the two series are assumed equal length,
/// and a mismatch is truncated to the shorter length at render time.
pub open spec fn paired_len(x: Seq<i64>, y: Seq<i64>) -> int {
    if x.len() <= y.len() {
        x.len() as int
    } else {
        y.len() as int
    }
}

/// The first `n` lines of the paired table.
pub open spec fn process_rows_upto(x: Seq<i64>, y: Seq<i64>, n: int) -> Seq<char>
    decreases n,
{
    if n <= 0 {
        Seq::empty()
    } else {
        process_rows_upto(x, y, n - 1) + dec_int(x[n - 1] as int) + "\t"@ + dec_int(
            y[n - 1] as int,
        ) + "\n"@
    }
}

/// The paired table: one line per matched index, the two values separated
/// by a tab.
pub open spec fn process_raw_data(x: Seq<i64>, y: Seq<i64>) -> Seq<char> {
    process_rows_upto(x, y, paired_len(x, y))
}

/// Two finite replayable series playing equal roles, with one owned
/// configuration.
#[derive(Debug, Clone)]
pub struct Process {
    pub x: Vec<i64>,
    pub y: Vec<i64>,
    pub config: Configuration,
}

impl Process {
    /// A process over the two series with a default configuration.
    pub fn new(x: Vec<i64>, y: Vec<i64>) -> (r: Self)
        ensures
            r.x == x,
            r.y == y,
            is_default_except_date(r.config),
    {
        Process { x, y, config: Configuration::new() }
    }

    /// A process over the two series that keeps an already-built
    /// configuration.
    pub fn from_raw(x: Vec<i64>, y: Vec<i64>, config: Configuration) -> (r: Self)
        ensures
            r.x == x,
            r.y == y,
            r.config == config,
    {
        Process { x, y, config }
    }
}

impl Configurable for Process {
    open spec fn cfg(&self) -> Configuration {
        self.config
    }

    fn configuration_as_ref(&self) -> (r: &Configuration) {
        &self.config
    }
}

impl Saveable for Process {
    open spec fn raw_data_text(&self) -> Seq<char> {
        process_raw_data(self.x@, self.y@)
    }

    fn raw_data(&self) -> (r: String) {
        let n = if self.x.len() <= self.y.len() {
            self.x.len()
        } else {
            self.y.len()
        };
        let mut out = String::new();
        let mut i: usize = 0;
        while i < n
            invariant
                i <= n,
                n as int == paired_len(self.x@, self.y@),
                out@ == process_rows_upto(self.x@, self.y@, i as int),
            decreases n - i,
        {
            let rendered = i64_string(self.x[i]);
            out.append(rendered.as_str());
            out.append("\t");
            let rendered = i64_string(self.y[i]);
            out.append(rendered.as_str());
            out.append("\n");
            proof {
                assert(out@ =~= process_rows_upto(self.x@, self.y@, i as int + 1));
            }
            i += 1;
        }
        out
    }
}

impl Plotable for Process {
    open spec fn plot_script_text(&self) -> Seq<char> {
        single_plot_script(self.config)
    }

    fn plot_script(&self) -> (r: String) {
        self.config.single_plot_script_text()
    }

    fn set_id(&mut self, id: String) {
        self.config.id(id);
    }
}


impl Process {
    /// Stores the title and returns the entity for chaining.
    pub fn title(self, value: String) -> (r: Self)
        ensures
            r == (Process { config: (Configuration { title: Some(value), ..self.config }), ..self }),
    {
        let mut this = self;
        this.config.title(value);
        this
    }

    /// Stores the base of a logarithmic x scale, as the text the script
    /// will carry.
    pub fn logx(self, value: String) -> (r: Self)
        ensures
            r == (Process { config: (Configuration { log_x: Some(value), ..self.config }), ..self }),
    {
        let mut this = self;
        this.config.logx(value);
        this
    }

    /// Stores the base of a logarithmic y scale, as the text the script
    /// will carry.
    pub fn logy(self, value: String) -> (r: Self)
        ensures
            r == (Process { config: (Configuration { log_y: Some(value), ..self.config }), ..self }),
    {
        let mut this = self;
        this.config.logy(value);
        this
    }

    /// Stores the x-axis label and returns the entity for chaining.
    pub fn labelx(self, value: String) -> (r: Self)
        ensures
            r == (Process { config: (Configuration { label_x: Some(value), ..self.config }), ..self }),
    {
        let mut this = self;
        this.config.labelx(value);
        this
    }

    /// Stores the y-axis label and returns the entity for chaining.
    pub fn labely(self, value: String) -> (r: Self)
        ensures
            r == (Process { config: (Configuration { label_y: Some(value), ..self.config }), ..self }),
    {
        let mut this = self;
        this.config.labely(value);
        this
    }

    /// Stores the inclusive x range, as the texts the script will carry;
    /// their ordering is the caller's responsibility.
    pub fn rangex(self, left: String, right: String) -> (r: Self)
        ensures
            r == (Process { config: (Configuration { range_x: Some((left, right)), ..self.config }), ..self }),
    {
        let mut this = self;
        this.config.rangex(left, right);
        this
    }

    /// Stores the inclusive y range, as the texts the script will carry.
    pub fn rangey(self, down: String, up: String) -> (r: Self)
        ensures
            r == (Process { config: (Configuration { range_y: Some((down, up)), ..self.config }), ..self }),
    {
        let mut this = self;
        this.config.rangey(down, up);
        this
    }

    /// Stores the data-file extension and returns the entity for chaining.
    pub fn extension(self, value: String) -> (r: Self)
        ensures
            r == (Process { config: (Configuration { extension: value, ..self.config }), ..self }),
    {
        let mut this = self;
        this.config.extension(value);
        this
    }

    /// Switches the commented header block of the data file on or off.
    pub fn header(self, value: bool) -> (r: Self)
        ensures
            r == (Process { config: (Configuration { header: value, ..self.config }), ..self }),
    {
        let mut this = self;
        this.config.header(value);
        this
    }

    /// Stores the render style and returns the entity for chaining.
    pub fn style(self, value: Style) -> (r: Self)
        ensures
            r == (Process { config: (Configuration { style: value, ..self.config }), ..self }),
    {
        let mut this = self;
        this.config.style(value);
        this
    }

    /// Stores the dash type and returns the entity for chaining.
    pub fn dashtype(self, value: usize) -> (r: Self)
        ensures
            r == (Process { config: (Configuration { dashtype: Some(value), ..self.config }), ..self }),
    {
        let mut this = self;
        this.config.dashtype(value);
        this
    }

    /// Stores the timestamp text shown in the header block.
    pub fn date(self, value: String) -> (r: Self)
        ensures
            r == (Process { config: (Configuration { date: value, ..self.config }), ..self }),
    {
        let mut this = self;
        this.config.date(value);
        this
    }

    /// Stores the identifier that becomes the base file name.
    pub fn id(self, value: String) -> (r: Self)
        ensures
            r == (Process { config: (Configuration { id: Some(value), ..self.config }), ..self }),
    {
        let mut this = self;
        this.config.id(value);
        this
    }

    /// Stores `value` under `key` among the custom pairs, overwriting that
    /// key only.
    pub fn custom(self, key: String, value: String) -> (r: Self)
        ensures
            r == (Process { config: (Configuration { custom: r.config.custom, ..self.config }), ..self }),
            forall|k: Seq<char>| #[trigger] lookup(r.config.custom@, k) == (if k == key@ {
                Some(value@)
            } else {
                lookup(self.config.custom@, k)
            }),
    {
        let mut this = self;
        this.config.custom(key, value);
        this
    }
}


impl Process {
    /// `logx` under its other name.
    pub fn xlog(self, value: String) -> (r: Self)
        ensures
            r == (Process { config: (Configuration { log_x: Some(value), ..self.config }), ..self }),
    {
        self.logx(value)
    }

    /// `logy` under its other name.
    pub fn ylog(self, value: String) -> (r: Self)
        ensures
            r == (Process { config: (Configuration { log_y: Some(value), ..self.config }), ..self }),
    {
        self.logy(value)
    }

    /// `labelx` under its other name.
    pub fn xlabel(self, value: String) -> (r: Self)
        ensures
            r == (Process { config: (Configuration { label_x: Some(value), ..self.config }), ..self }),
    {
        self.labelx(value)
    }

    /// `labely` under its other name.
    pub fn ylabel(self, value: String) -> (r: Self)
        ensures
            r == (Process { config: (Configuration { label_y: Some(value), ..self.config }), ..self }),
    {
        self.labely(value)
    }

    /// `rangex` under its other name.
    pub fn xrange(self, left: String, right: String) -> (r: Self)
        ensures
            r == (Process { config: (Configuration { range_x: Some((left, right)), ..self.config }), ..self }),
    {
        self.rangex(left, right)
    }

    /// `rangey` under its other name.
    pub fn yrange(self, down: String, up: String) -> (r: Self)
        ensures
            r == (Process { config: (Configuration { range_y: Some((down, up)), ..self.config }), ..self }),
    {
        self.rangey(down, up)
    }
}

} // verus!
