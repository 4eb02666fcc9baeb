//! A single ordered numeric series, rendered as an index/value table and a
//! minimal single-series script.

use vstd::prelude::*;

use crate::configuration::{is_default_except_date, lookup, Configuration, Style};
use crate::decimal::{dec_int, dec_nat, i64_string, usize_string};
use crate::script::single_plot_script;
use crate::traits::{Configurable, Plotable, Saveable};

verus! {

/// The first `n` lines of the index/value table of a series.
pub open spec fn sequence_rows_upto(data: Seq<i64>, n: int) -> Seq<char>
    decreases n,
{
    if n <= 0 {
        Seq::empty()
    } else {
        sequence_rows_upto(data, n - 1) + dec_nat((n - 1) as nat) + "\t"@ + dec_int(
            data[n - 1] as int,
        ) + "\n"@
    }
}

/// The index/value table of a series: one line per element, the zero-based
/// index and the value separated by a tab.
pub open spec fn sequence_raw_data(data: Seq<i64>) -> Seq<char> {
    sequence_rows_upto(data, data.len() as int)
}

/// One finite replayable series of values, with its owned configuration.
#[derive(Debug, Clone)]
pub struct Sequence {
    pub data: Vec<i64>,
    pub config: Configuration,
}

impl Sequence {
    /// A sequence over `data` with a default configuration.
    pub fn new(data: Vec<i64>) -> (r: Self)
        ensures
            r.data == data,
            is_default_except_date(r.config),
    {
        Sequence { data, config: Configuration::new() }
    }

    /// A sequence over `data` that keeps an already-built configuration.
    pub fn from_raw(data: Vec<i64>, config: Configuration) -> (r: Self)
        ensures
            r.data == data,
            r.config == config,
    {
        Sequence { data, config }
    }
}

impl Configurable for Sequence {
    open spec fn cfg(&self) -> Configuration {
        self.config
    }

    fn configuration_as_ref(&self) -> (r: &Configuration) {
        &self.config
    }
}

impl Saveable for Sequence {
    open spec fn raw_data_text(&self) -> Seq<char> {
        sequence_raw_data(self.data@)
    }

    fn raw_data(&self) -> (r: String) {
        let mut out = String::new();
        let mut i: usize = 0;
        while i < self.data.len()
            invariant
                i <= self.data@.len(),
                out@ == sequence_rows_upto(self.data@, i as int),
            decreases self.data@.len() - i,
        {
            let rendered = usize_string(i);
            out.append(rendered.as_str());
            out.append("\t");
            let rendered = i64_string(self.data[i]);
            out.append(rendered.as_str());
            out.append("\n");
            proof {
                assert(out@ =~= sequence_rows_upto(self.data@, i as int + 1));
            }
            i += 1;
        }
        out
    }
}

impl Plotable for Sequence {
    open spec fn plot_script_text(&self) -> Seq<char> {
        single_plot_script(self.config)
    }

    fn plot_script(&self) -> (r: String) {
        self.config.single_plot_script_text()
    }

    fn set_id(&mut self, id: String) {
        self.config.id(id);
    }
}


impl Sequence {
    /// Stores the title and returns the entity for chaining.
    pub fn title(self, value: String) -> (r: Self)
        ensures
            r == (Sequence { config: (Configuration { title: Some(value), ..self.config }), ..self }),
    {
        let mut this = self;
        this.config.title(value);
        this
    }

    /// Stores the base of a logarithmic x scale, as the text the script
    /// will carry.
    pub fn logx(self, value: String) -> (r: Self)
        ensures
            r == (Sequence { config: (Configuration { log_x: Some(value), ..self.config }), ..self }),
    {
        let mut this = self;
        this.config.logx(value);
        this
    }

    /// Stores the base of a logarithmic y scale, as the text the script
    /// will carry.
    pub fn logy(self, value: String) -> (r: Self)
        ensures
            r == (Sequence { config: (Configuration { log_y: Some(value), ..self.config }), ..self }),
    {
        let mut this = self;
        this.config.logy(value);
        this
    }

    /// Stores the x-axis label and returns the entity for chaining.
    pub fn labelx(self, value: String) -> (r: Self)
        ensures
            r == (Sequence { config: (Configuration { label_x: Some(value), ..self.config }), ..self }),
    {
        let mut this = self;
        this.config.labelx(value);
        this
    }

    /// Stores the y-axis label and returns the entity for chaining.
    pub fn labely(self, value: String) -> (r: Self)
        ensures
            r == (Sequence { config: (Configuration { label_y: Some(value), ..self.config }), ..self }),
    {
        let mut this = self;
        this.config.labely(value);
        this
    }

    /// Stores the inclusive x range, as the texts the script will carry;
    /// their ordering is the caller's responsibility.
    pub fn rangex(self, left: String, right: String) -> (r: Self)
        ensures
            r == (Sequence { config: (Configuration { range_x: Some((left, right)), ..self.config }), ..self }),
    {
        let mut this = self;
        this.config.rangex(left, right);
        this
    }

    /// Stores the inclusive y range, as the texts the script will carry.
    pub fn rangey(self, down: String, up: String) -> (r: Self)
        ensures
            r == (Sequence { config: (Configuration { range_y: Some((down, up)), ..self.config }), ..self }),
    {
        let mut this = self;
        this.config.rangey(down, up);
        this
    }

    /// Stores the data-file extension and returns the entity for chaining.
    pub fn extension(self, value: String) -> (r: Self)
        ensures
            r == (Sequence { config: (Configuration { extension: value, ..self.config }), ..self }),
    {
        let mut this = self;
        this.config.extension(value);
        this
    }

    /// Switches the commented header block of the data file on or off.
    pub fn header(self, value: bool) -> (r: Self)
        ensures
            r == (Sequence { config: (Configuration { header: value, ..self.config }), ..self }),
    {
        let mut this = self;
        this.config.header(value);
        this
    }

    /// Stores the render style and returns the entity for chaining.
    pub fn style(self, value: Style) -> (r: Self)
        ensures
            r == (Sequence { config: (Configuration { style: value, ..self.config }), ..self }),
    {
        let mut this = self;
        this.config.style(value);
        this
    }

    /// Stores the dash type and returns the entity for chaining.
    pub fn dashtype(self, value: usize) -> (r: Self)
        ensures
            r == (Sequence { config: (Configuration { dashtype: Some(value), ..self.config }), ..self }),
    {
        let mut this = self;
        this.config.dashtype(value);
        this
    }

    /// Stores the timestamp text shown in the header block.
    pub fn date(self, value: String) -> (r: Self)
        ensures
            r == (Sequence { config: (Configuration { date: value, ..self.config }), ..self }),
    {
        let mut this = self;
        this.config.date(value);
        this
    }

    /// Stores the identifier that becomes the base file name.
    pub fn id(self, value: String) -> (r: Self)
        ensures
            r == (Sequence { config: (Configuration { id: Some(value), ..self.config }), ..self }),
    {
        let mut this = self;
        this.config.id(value);
        this
    }

    /// Stores `value` under `key` among the custom pairs, overwriting that
    /// key only.
    pub fn custom(self, key: String, value: String) -> (r: Self)
        ensures
            r == (Sequence { config: (Configuration { custom: r.config.custom, ..self.config }), ..self }),
            forall|k: Seq<char>| #[trigger] lookup(r.config.custom@, k) == (if k == key@ {
                Some(value@)
            } else {
                lookup(self.config.custom@, k)
            }),
    {
        let mut this = self;
        this.config.custom(key, value);
        this
    }
}


impl Sequence {
    /// `logx` under its other name.
    pub fn xlog(self, value: String) -> (r: Self)
        ensures
            r == (Sequence { config: (Configuration { log_x: Some(value), ..self.config }), ..self }),
    {
        self.logx(value)
    }

    /// `logy` under its other name.
    pub fn ylog(self, value: String) -> (r: Self)
        ensures
            r == (Sequence { config: (Configuration { log_y: Some(value), ..self.config }), ..self }),
    {
        self.logy(value)
    }

    /// `labelx` under its other name.
    pub fn xlabel(self, value: String) -> (r: Self)
        ensures
            r == (Sequence { config: (Configuration { label_x: Some(value), ..self.config }), ..self }),
    {
        self.labelx(value)
    }

    /// `labely` under its other name.
    pub fn ylabel(self, value: String) -> (r: Self)
        ensures
            r == (Sequence { config: (Configuration { label_y: Some(value), ..self.config }), ..self }),
    {
        self.labely(value)
    }

    /// `rangex` under its other name.
    pub fn xrange(self, left: String, right: String) -> (r: Self)
        ensures
            r == (Sequence { config: (Configuration { range_x: Some((left, right)), ..self.config }), ..self }),
    {
        self.rangex(left, right)
    }

    /// `rangey` under its other name.
    pub fn yrange(self, down: String, up: String) -> (r: Self)
        ensures
            r == (Sequence { config: (Configuration { range_y: Some((down, up)), ..self.config }), ..self }),
    {
        self.rangey(down, up)
    }
}

} // verus!
