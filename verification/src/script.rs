//! Script and data-file templating: every configuration option maps to a
//! deterministic script fragment, absent options are omitted entirely, and
//! the engine's output/format directive is always emitted.

use vstd::prelude::*;

use crate::configuration::{style_text, Configuration};
use crate::decimal::{dec_nat, usize_string};
use crate::data_dir;
use crate::plot_dir;

verus! {

/// Path of the data file for a base name and extension.
pub open spec fn data_path_text(id: Seq<char>, extension: Seq<char>) -> Seq<char> {
    data_dir() + "/"@ + id + "."@ + extension
}

/// Path of the generated script file for a base name.
pub open spec fn plot_path_text(id: Seq<char>) -> Seq<char> {
    plot_dir() + "/"@ + id + ".gnu"@
}

/// The stored id, or the empty base name where none is set. Terminal
/// operations reject an absent id before any artifact is produced; this
/// only fixes what a script produced without one would say.
pub open spec fn effective_id(c: Configuration) -> Seq<char> {
    match c.id {
        Some(id) => id@,
        None => Seq::empty(),
    }
}

/// The engine's output directive, naming the rendered image.
pub open spec fn output_line(c: Configuration) -> Seq<char> {
    "set output \""@ + plot_dir() + "/"@ + effective_id(c) + ".png\"\n"@
}

pub open spec fn title_line(c: Configuration) -> Seq<char> {
    match c.title {
        Some(t) => "set title \""@ + t@ + "\"\n"@,
        None => Seq::empty(),
    }
}

pub open spec fn logx_line(c: Configuration) -> Seq<char> {
    match c.log_x {
        Some(b) => "set logscale x "@ + b@ + "\n"@,
        None => Seq::empty(),
    }
}

pub open spec fn logy_line(c: Configuration) -> Seq<char> {
    match c.log_y {
        Some(b) => "set logscale y "@ + b@ + "\n"@,
        None => Seq::empty(),
    }
}

pub open spec fn labelx_line(c: Configuration) -> Seq<char> {
    match c.label_x {
        Some(l) => "set xlabel \""@ + l@ + "\"\n"@,
        None => Seq::empty(),
    }
}

pub open spec fn labely_line(c: Configuration) -> Seq<char> {
    match c.label_y {
        Some(l) => "set ylabel \""@ + l@ + "\"\n"@,
        None => Seq::empty(),
    }
}

pub open spec fn rangex_line(c: Configuration) -> Seq<char> {
    match c.range_x {
        Some(r) => "set xrange ["@ + r.0@ + ":"@ + r.1@ + "]\n"@,
        None => Seq::empty(),
    }
}

pub open spec fn rangey_line(c: Configuration) -> Seq<char> {
    match c.range_y {
        Some(r) => "set yrange ["@ + r.0@ + ":"@ + r.1@ + "]\n"@,
        None => Seq::empty(),
    }
}

/// One `set` line per custom pair, from position `i` on, in stored order.
pub open spec fn custom_lines_from(entries: Seq<(String, String)>, i: int) -> Seq<char>
    decreases entries.len() - i,
{
    if i < 0 || i >= entries.len() {
        Seq::empty()
    } else {
        "set "@ + entries[i].0@ + " "@ + entries[i].1@ + "\n"@ + custom_lines_from(entries, i + 1)
    }
}

pub open spec fn custom_lines(entries: Seq<(String, String)>) -> Seq<char> {
    custom_lines_from(entries, 0)
}

/// The preamble shared by every kind of plot: the always-present terminal
/// and output directives, then one line for each option that is set.
pub open spec fn base_script(c: Configuration) -> Seq<char> {
    "set terminal pngcairo\n"@ + output_line(c) + title_line(c) + logx_line(c) + logy_line(c)
        + labelx_line(c) + labely_line(c) + rangex_line(c) + rangey_line(c) + custom_lines(
        c.custom@,
    )
}

pub open spec fn dashtype_part(c: Configuration) -> Seq<char> {
    match c.dashtype {
        Some(d) => " dashtype "@ + dec_nat(d as nat),
        None => Seq::empty(),
    }
}

pub open spec fn title_part(c: Configuration) -> Seq<char> {
    match c.title {
        Some(t) => " title \""@ + t@ + "\""@,
        None => Seq::empty(),
    }
}

/// One plotted series: the data file it reads, the two columns drawn, and
/// the per-series render hints of its configuration.
pub open spec fn series_text(path: Seq<char>, c: Configuration) -> Seq<char> {
    "\""@ + path + "\" using 1:2 with "@ + style_text(c.style) + dashtype_part(c) + title_part(c)
        + "\n"@
}

/// The whole script of an entity plotted as a single series: the shared
/// preamble, then one plot directive reading columns one and two of the
/// entity's data file.
pub open spec fn single_plot_script(c: Configuration) -> Seq<char> {
    base_script(c) + "plot "@ + series_text(data_path_text(effective_id(c), c.extension@), c)
}

/// The commented metadata block prepended to a data file when headers are
/// enabled: one line each for the title and id where present, then the date.
pub open spec fn header_block(c: Configuration) -> Seq<char> {
    if c.header {
        (match c.title {
            Some(t) => "# "@ + t@ + "\n"@,
            None => Seq::<char>::empty(),
        }) + (match c.id {
            Some(i) => "# "@ + i@ + "\n"@,
            None => Seq::<char>::empty(),
        }) + "# "@ + c.date@ + "\n"@
    } else {
        Seq::empty()
    }
}

/// The data-file path for a base name and extension.
pub fn build_data_path(id: &str, extension: &str) -> (r: String)
    ensures
        r@ == data_path_text(id@, extension@),
{
    let mut out = String::new();
    out.append("data");
    out.append("/");
    out.append(id);
    out.append(".");
    out.append(extension);
    proof {
        assert(out@ =~= data_path_text(id@, extension@));
    }
    out
}

/// The script-file path for a base name.
pub fn build_plot_path(id: &str) -> (r: String)
    ensures
        r@ == plot_path_text(id@),
{
    let mut out = String::new();
    out.append("plots");
    out.append("/");
    out.append(id);
    out.append(".gnu");
    proof {
        assert(out@ =~= plot_path_text(id@));
    }
    out
}

impl Configuration {
    /// The engine's output directive line.
    fn output_line_text(&self) -> (r: String)
        ensures
            r@ == output_line(*self),
    {
        let mut out = String::new();
        out.append("set output \"");
        out.append("plots");
        out.append("/");
        match &self.id {
            Some(id) => out.append(id.as_str()),
            None => (),
        }
        out.append(".png\"\n");
        proof {
            assert(out@ =~= output_line(*self));
        }
        out
    }

    /// One `set` line for an option that is present, or nothing.
    fn title_line_text(&self) -> (r: String)
        ensures
            r@ == title_line(*self),
    {
        let mut out = String::new();
        match &self.title {
            Some(t) => {
                out.append("set title \"");
                out.append(t.as_str());
                out.append("\"\n");
            },
            None => (),
        }
        proof {
            assert(out@ =~= title_line(*self));
        }
        out
    }

    fn logscale_lines_text(&self) -> (r: String)
        ensures
            r@ == logx_line(*self) + logy_line(*self),
    {
        let mut out = String::new();
        match &self.log_x {
            Some(b) => {
                out.append("set logscale x ");
                out.append(b.as_str());
                out.append("\n");
            },
            None => (),
        }
        match &self.log_y {
            Some(b) => {
                out.append("set logscale y ");
                out.append(b.as_str());
                out.append("\n");
            },
            None => (),
        }
        proof {
            assert(out@ =~= logx_line(*self) + logy_line(*self));
        }
        out
    }

    fn label_lines_text(&self) -> (r: String)
        ensures
            r@ == labelx_line(*self) + labely_line(*self),
    {
        let mut out = String::new();
        match &self.label_x {
            Some(l) => {
                out.append("set xlabel \"");
                out.append(l.as_str());
                out.append("\"\n");
            },
            None => (),
        }
        match &self.label_y {
            Some(l) => {
                out.append("set ylabel \"");
                out.append(l.as_str());
                out.append("\"\n");
            },
            None => (),
        }
        proof {
            assert(out@ =~= labelx_line(*self) + labely_line(*self));
        }
        out
    }

    fn range_lines_text(&self) -> (r: String)
        ensures
            r@ == rangex_line(*self) + rangey_line(*self),
    {
        let mut out = String::new();
        match &self.range_x {
            Some(r) => {
                out.append("set xrange [");
                out.append(r.0.as_str());
                out.append(":");
                out.append(r.1.as_str());
                out.append("]\n");
            },
            None => (),
        }
        match &self.range_y {
            Some(r) => {
                out.append("set yrange [");
                out.append(r.0.as_str());
                out.append(":");
                out.append(r.1.as_str());
                out.append("]\n");
            },
            None => (),
        }
        proof {
            assert(out@ =~= rangex_line(*self) + rangey_line(*self));
        }
        out
    }

    /// The common script preamble: a pure function of the configuration,
    /// reused by every kind-specific script builder.
    pub fn base_plot_script(&self) -> (r: String)
        ensures
            r@ == base_script(*self),
    {
        let mut out = String::new();
        out.append("set terminal pngcairo\n");
        let part = self.output_line_text();
        out.append(part.as_str());
        let part = self.title_line_text();
        out.append(part.as_str());
        let part = self.logscale_lines_text();
        out.append(part.as_str());
        let part = self.label_lines_text();
        out.append(part.as_str());
        let part = self.range_lines_text();
        out.append(part.as_str());
        proof {
            assert(out@ =~= "set terminal pngcairo\n"@ + output_line(*self) + title_line(*self)
                + logx_line(*self) + logy_line(*self) + labelx_line(*self) + labely_line(*self)
                + rangex_line(*self) + rangey_line(*self));
        }
        let ghost head = out@;
        let mut i: usize = 0;
        while i < self.custom.len()
            invariant
                i <= self.custom@.len(),
                out@ + custom_lines_from(self.custom@, i as int) == head + custom_lines(
                    self.custom@,
                ),
            decreases self.custom@.len() - i,
        {
            let ghost before = out@;
            out.append("set ");
            out.append(self.custom[i].0.as_str());
            out.append(" ");
            out.append(self.custom[i].1.as_str());
            out.append("\n");
            proof {
                assert(out@ + custom_lines_from(self.custom@, i as int + 1) =~= before
                    + custom_lines_from(self.custom@, i as int));
            }
            i += 1;
        }
        proof {
            assert(out@ + custom_lines_from(self.custom@, self.custom@.len() as int) =~= out@);
            assert(head + custom_lines(self.custom@) =~= base_script(*self));
        }
        out
    }

    /// One series entry of a plot directive, for the data file at `path`.
    pub fn series_entry(&self, path: &str) -> (r: String)
        ensures
            r@ == series_text(path@, *self),
    {
        let mut out = String::new();
        out.append("\"");
        out.append(path);
        out.append("\" using 1:2 with ");
        out.append(self.style.script_word());
        match self.dashtype {
            Some(d) => {
                out.append(" dashtype ");
                let rendered = usize_string(d);
                out.append(rendered.as_str());
            },
            None => (),
        }
        match &self.title {
            Some(t) => {
                out.append(" title \"");
                out.append(t.as_str());
                out.append("\"");
            },
            None => (),
        }
        out.append("\n");
        proof {
            assert(out@ =~= series_text(path@, *self));
        }
        out
    }

    /// The whole script of an entity plotted as a single series under this
    /// configuration.
    pub fn single_plot_script_text(&self) -> (r: String)
        ensures
            r@ == single_plot_script(*self),
    {
        let mut out = self.base_plot_script();
        out.append("plot ");
        let path = match &self.id {
            Some(id) => build_data_path(id.as_str(), self.extension.as_str()),
            None => build_data_path("", self.extension.as_str()),
        };
        proof {
            reveal_strlit("");
            assert(""@ =~= Seq::<char>::empty());
            assert(path@ =~= data_path_text(effective_id(*self), self.extension@));
        }
        let series = self.series_entry(path.as_str());
        out.append(series.as_str());
        proof {
            assert(out@ =~= single_plot_script(*self));
        }
        out
    }

    /// The commented metadata block for a data file, empty when headers are
    /// disabled.
    pub fn header_text(&self) -> (r: String)
        ensures
            r@ == header_block(*self),
    {
        let mut out = String::new();
        if self.get_header() {
            match &self.title {
                Some(t) => {
                    out.append("# ");
                    out.append(t.as_str());
                    out.append("\n");
                },
                None => (),
            }
            match &self.id {
                Some(id) => {
                    out.append("# ");
                    out.append(id.as_str());
                    out.append("\n");
                },
                None => (),
            }
            out.append("# ");
            out.append(self.date.as_str());
            out.append("\n");
        }
        proof {
            assert(out@ =~= header_block(*self));
        }
        out
    }
}

} // verus!
