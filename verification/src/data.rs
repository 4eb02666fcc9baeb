//! Dimension dispatch: raw data plus a declared dimensionality, split and
//! reinterpreted as a [`Sequence`] or a [`Process`].

use vstd::prelude::*;

use crate::configuration::{is_default_except_date, Configuration};
use crate::decimal::{dec_int, dec_nat, i64_string, usize_string};
use crate::errors::SavingError;
use crate::process::Process;
use crate::script::{build_data_path, data_path_text, single_plot_script};
use crate::sequence::Sequence;

verus! {

/// The elements at even positions (zero-indexed): the first derived series
/// of a two-dimensional split.
pub open spec fn even_positions(s: Seq<i64>) -> Seq<i64> {
    Seq::new(((s.len() + 1) / 2) as nat, |i: int| s[2 * i])
}

/// The elements at odd positions: the second derived series.
pub open spec fn odd_positions(s: Seq<i64>) -> Seq<i64> {
    Seq::new((s.len() / 2) as nat, |i: int| s[2 * i + 1])
}

/// The tail of a table line: one tab-preceded copy of the value per
/// declared dimension width, then the line break.
pub open spec fn repeated_value(v: int, d: int) -> Seq<char>
    decreases d,
{
    if d <= 0 {
        "\n"@
    } else {
        "\t"@ + dec_int(v) + repeated_value(v, d - 1)
    }
}

/// The first `n` lines of the table: each line carries the zero-based
/// index first, then the value repeated per dimension width.
pub open spec fn data_rows_upto(data: Seq<i64>, dim: int, n: int) -> Seq<char>
    decreases n,
{
    if n <= 0 {
        Seq::empty()
    } else {
        data_rows_upto(data, dim, n - 1) + dec_nat((n - 1) as nat) + repeated_value(
            data[n - 1] as int,
            dim,
        )
    }
}

/// The payload of a general data file: a comment naming the columns, then
/// one line per element holding the zero-based index and the value
/// repeated per dimension width.
pub open spec fn data_raw_data(data: Seq<i64>, dim: int) -> Seq<char> {
    "# index value\n"@ + data_rows_upto(data, dim, data.len() as int)
}

/// Raw data of a declared dimensionality, not yet committed to a concrete
/// plottable kind.
#[derive(Debug, Clone)]
pub struct Data {
    pub data: Vec<i64>,
    pub config: Configuration,
    pub dim: u8,
}

/// The concrete kind a [`Data`] resolves to: a one-dimensional series or a
/// deinterleaved pair.
#[derive(Debug, Clone)]
pub enum Dispatched {
    Sequence(Sequence),
    Process(Process),
}

/// Splits a flat series by index parity: the element at index `i` goes to
/// the first stream when `i` is even and to the second when `i` is odd.
pub fn split_even_odd(data: &Vec<i64>) -> (r: (Vec<i64>, Vec<i64>))
    ensures
        r.0@ == even_positions(data@),
        r.1@ == odd_positions(data@),
{
    let mut first: Vec<i64> = Vec::new();
    let mut second: Vec<i64> = Vec::new();
    let mut i: usize = 0;
    while i < data.len()
        invariant
            i <= data@.len(),
            first@.len() == (i + 1) / 2,
            second@.len() == i / 2,
            forall|j: int| 0 <= j < first@.len() ==> first@[j] == data@[2 * j],
            forall|j: int| 0 <= j < second@.len() ==> second@[j] == data@[2 * j + 1],
        decreases data@.len() - i,
    {
        if i % 2 == 0 {
            first.push(data[i]);
        } else {
            second.push(data[i]);
        }
        i += 1;
    }
    proof {
        assert(first@ =~= even_positions(data@));
        assert(second@ =~= odd_positions(data@));
    }
    (first, second)
}

/// The shape of a two-dimensional split: the first derived series holds
/// exactly the elements at even positions and has half the length rounded
/// up; the second holds the elements at odd positions with half the length
/// rounded down.
pub proof fn lemma_split_shape(data: Seq<i64>)
    ensures
        even_positions(data).len() == (data.len() + 1) / 2,
        odd_positions(data).len() == data.len() / 2,
        forall|i: int|
            0 <= i < even_positions(data).len() ==> even_positions(data)[i] == data[2 * i],
        forall|i: int|
            0 <= i < odd_positions(data).len() ==> odd_positions(data)[i] == data[2 * i + 1],
{
}

/// The split is deterministic: two runs on identical input derive
/// identical series, since each result is pinned to a function of the
/// input data alone.
pub proof fn lemma_split_deterministic(
    data: Seq<i64>,
    first1: Seq<i64>,
    second1: Seq<i64>,
    first2: Seq<i64>,
    second2: Seq<i64>,
)
    requires
        first1 == even_positions(data),
        second1 == odd_positions(data),
        first2 == even_positions(data),
        second2 == odd_positions(data),
    ensures
        first1 == first2,
        second1 == second2,
{
}

impl Data {
    /// Raw data of declared dimensionality `dim` with a default
    /// configuration.
    pub fn new(data: Vec<i64>, dim: u8) -> (r: Self)
        ensures
            r.data == data,
            r.dim == dim,
            is_default_except_date(r.config),
    {
        let config = Configuration::new();
        Data { data, config, dim }
    }

    pub fn set_title(self, title: String) -> (r: Self)
        ensures
            r == (Data {
                config: (Configuration { title: Some(title), ..self.config }),
                ..self
            }),
    {
        let mut this = self;
        this.config.title(title);
        this
    }

    /// Stores the base of a logarithmic x scale, as the text the script
    /// will carry.
    pub fn set_logx(self, logx: String) -> (r: Self)
        ensures
            r == (Data {
                config: (Configuration { log_x: Some(logx), ..self.config }),
                ..self
            }),
    {
        let mut this = self;
        this.config.logx(logx);
        this
    }

    /// Stores the base of a logarithmic y scale, as the text the script
    /// will carry.
    pub fn set_logy(self, logy: String) -> (r: Self)
        ensures
            r == (Data {
                config: (Configuration { log_y: Some(logy), ..self.config }),
                ..self
            }),
    {
        let mut this = self;
        this.config.logy(logy);
        this
    }

    /// Resolves the declared dimensionality: `1` delegates to a sequence
    /// over the data as it stands, `2` deinterleaves by index parity into a
    /// process, and anything else is the unsupported-shape failure.
    pub fn dispatch(self) -> (r: Result<Dispatched, SavingError>)
        ensures
            self.dim == 1 ==> (r matches Ok(d) && d matches Dispatched::Sequence(s) && s.data
                == self.data && s.config == self.config),
            self.dim == 2 ==> (r matches Ok(d) && d matches Dispatched::Process(p) && p.x@
                == even_positions(self.data@) && p.y@ == odd_positions(self.data@) && p.config
                == self.config),
            !(self.dim == 1 || self.dim == 2) ==> (r matches Err(e) && e
                == SavingError::UnsupportedDimension),
    {
        match self.dim {
            1 => Ok(Dispatched::Sequence(Sequence::from_raw(self.data, self.config))),
            2 => {
                let (first, second) = split_even_odd(&self.data);
                Ok(Dispatched::Process(Process::from_raw(first, second, self.config)))
            },
            _ => Err(SavingError::UnsupportedDimension),
        }
    }

    /// The script a dispatched entity would carry: both supported
    /// dimensionalities plot a single series reading columns one and two,
    /// so the script is a function of the configuration alone. Unsupported
    /// dimensionalities fail and produce nothing.
    pub fn plot_script(&self) -> (r: Result<String, SavingError>)
        ensures
            self.dim == 1 || self.dim == 2 ==> (r matches Ok(s) && s@ == single_plot_script(
                self.config,
            )),
            !(self.dim == 1 || self.dim == 2) ==> (r matches Err(e) && e
                == SavingError::UnsupportedDimension),
    {
        match self.dim {
            1 => Ok(self.config.single_plot_script_text()),
            2 => Ok(self.config.single_plot_script_text()),
            _ => Err(SavingError::UnsupportedDimension),
        }
    }

    /// The payload of this data's own table: one line per element holding
    /// the zero-based index and the value repeated once per dimension
    /// width.
    pub fn raw_data(&self) -> (r: String)
        ensures
            r@ == data_raw_data(self.data@, self.dim as int),
    {
        let mut out = String::new();
        out.append("# index value\n");
        let mut i: usize = 0;
        while i < self.data.len()
            invariant
                i <= self.data@.len(),
                out@ == "# index value\n"@ + data_rows_upto(
                    self.data@,
                    self.dim as int,
                    i as int,
                ),
            decreases self.data@.len() - i,
        {
            let ghost line_start = out@;
            let rendered = usize_string(i);
            out.append(rendered.as_str());
            let ghost row_base = out@;
            let value = self.data[i];
            let mut j: u8 = 0;
            while j < self.dim
                invariant
                    j <= self.dim,
                    value == self.data@[i as int],
                    i < self.data@.len(),
                    out@ + repeated_value(value as int, self.dim - j) == row_base
                        + repeated_value(value as int, self.dim as int),
                decreases self.dim - j,
            {
                out.append("\t");
                let rendered = i64_string(value);
                out.append(rendered.as_str());
                proof {
                    assert(out@ + repeated_value(value as int, self.dim - (j + 1)) =~= row_base
                        + repeated_value(value as int, self.dim as int));
                }
                j += 1;
            }
            out.append("\n");
            proof {
                assert(repeated_value(value as int, 0) == "\n"@);
                assert(out@ =~= row_base + repeated_value(value as int, self.dim as int));
                assert(row_base == line_start + dec_nat(i as nat));
                assert(out@ =~= "# index value\n"@ + data_rows_upto(
                    self.data@,
                    self.dim as int,
                    i as int + 1,
                ));
            }
            i += 1;
        }
        out
    }

    /// The data-file artifact of this table under an explicit base name;
    /// general data always uses the `txt` extension.
    pub fn save_target(&self, id: &str) -> (r: (String, String))
        ensures
            r.0@ == data_path_text(id@, "txt"@),
            r.1@ == data_raw_data(self.data@, self.dim as int),
    {
        let path = build_data_path(id, "txt");
        (path, self.raw_data())
    }
}

} // verus!
