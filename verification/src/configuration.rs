//! Display and formatting options shared by every plottable entity, and the
//! script fragments that each option contributes.
//!
//! Every option is either optional (absent until set, and then returned
//! exactly as stored) or carries a concrete default (`extension`, `header`,
//! `style`, `date`). Setting an option twice overwrites silently; the
//! `custom` pairs form a string-to-string mapping where re-setting a key
//! overwrites that key only.

use vstd::prelude::*;

use crate::decimal::dec_nat;
use crate::errors::SavingError;

verus! {

/// Render hint for a plotted series.
#[derive(Clone, Copy, Debug, PartialEq, Eq, Structural)]
pub enum Style {
    Lines,
    Points,
    LinesPoints,
}

/// The text a style contributes to a plot directive.
pub open spec fn style_text(s: Style) -> Seq<char> {
    match s {
        Style::Lines => "lines"@,
        Style::Points => "points"@,
        Style::LinesPoints => "linespoints"@,
    }
}

impl Style {
    /// The script word for this style.
    pub fn script_word(&self) -> (r: &'static str)
        ensures
            r@ == style_text(*self),
    {
        match self {
            Style::Lines => "lines",
            Style::Points => "points",
            Style::LinesPoints => "linespoints",
        }
    }
}

impl Default for Style {
    fn default() -> (r: Self)
        ensures
            r == Style::Lines,
    {
        Style::Lines
    }
}

/// All display and formatting options of one entity. Numeric options that
/// only ever reach the generated script (logarithm bases, axis ranges) are
/// held as their textual rendering, which is all the script templating
/// reads of them.
#[derive(Debug, Clone)]
pub struct Configuration {
    pub title: Option<String>,
    pub log_x: Option<String>,
    pub log_y: Option<String>,
    pub label_x: Option<String>,
    pub label_y: Option<String>,
    pub range_x: Option<(String, String)>,
    pub range_y: Option<(String, String)>,
    pub extension: String,
    pub header: bool,
    pub style: Style,
    pub dashtype: Option<usize>,
    pub date: String,
    pub id: Option<String>,
    pub custom: Vec<(String, String)>,
}

/// The value stored under `key` in the custom pairs: the first entry with a
/// matching key. The setter keeps at most one entry per key, so this is the
/// mapping the pairs represent.
pub open spec fn lookup(entries: Seq<(String, String)>, key: Seq<char>) -> Option<Seq<char>>
    decreases entries.len(),
{
    if entries.len() == 0 {
        None
    } else if entries[0].0@ == key {
        Some(entries[0].1@)
    } else {
        lookup(entries.drop_first(), key)
    }
}

/// Every field that has a concrete default holds it, and every optional
/// field is absent; the construction-time `date` is left unconstrained.
pub open spec fn is_default_except_date(c: Configuration) -> bool {
    &&& c.title is None
    &&& c.log_x is None
    &&& c.log_y is None
    &&& c.label_x is None
    &&& c.label_y is None
    &&& c.range_x is None
    &&& c.range_y is None
    &&& c.extension@ == "txt"@
    &&& c.header == true
    &&& c.style == Style::Lines
    &&& c.dashtype is None
    &&& c.id is None
    &&& c.custom@.len() == 0
}

/// Relies on chrono::Local::now and chrono's rendering of a local
/// date-time as text. Nothing is promised of the value: it depends on the
/// clock.
#[verifier::external_body]
fn local_now_text() -> String {
    chrono::Local::now().to_string()
}

impl Configuration {
    /// A configuration with every default in place and every optional field
    /// absent; the date is the construction time.
    pub fn new() -> (r: Self)
        ensures
            is_default_except_date(r),
    {
        Configuration {
            title: None,
            log_x: None,
            log_y: None,
            label_x: None,
            label_y: None,
            range_x: None,
            range_y: None,
            extension: "txt".to_owned(),
            header: true,
            style: Style::Lines,
            dashtype: None,
            date: local_now_text(),
            id: None,
            custom: Vec::new(),
        }
    }

    pub fn title(&mut self, value: String)
        ensures
            *final(self) == (Configuration { title: Some(value), ..*old(self) }),
    {
        self.title = Some(value);
    }

    pub fn logx(&mut self, value: String)
        ensures
            *final(self) == (Configuration { log_x: Some(value), ..*old(self) }),
    {
        self.log_x = Some(value);
    }

    pub fn logy(&mut self, value: String)
        ensures
            *final(self) == (Configuration { log_y: Some(value), ..*old(self) }),
    {
        self.log_y = Some(value);
    }

    pub fn labelx(&mut self, value: String)
        ensures
            *final(self) == (Configuration { label_x: Some(value), ..*old(self) }),
    {
        self.label_x = Some(value);
    }

    pub fn labely(&mut self, value: String)
        ensures
            *final(self) == (Configuration { label_y: Some(value), ..*old(self) }),
    {
        self.label_y = Some(value);
    }

    pub fn rangex(&mut self, left: String, right: String)
        ensures
            *final(self) == (Configuration { range_x: Some((left, right)), ..*old(self) }),
    {
        self.range_x = Some((left, right));
    }

    pub fn rangey(&mut self, down: String, up: String)
        ensures
            *final(self) == (Configuration { range_y: Some((down, up)), ..*old(self) }),
    {
        self.range_y = Some((down, up));
    }

    pub fn extension(&mut self, value: String)
        ensures
            *final(self) == (Configuration { extension: value, ..*old(self) }),
    {
        self.extension = value;
    }

    pub fn header(&mut self, value: bool)
        ensures
            *final(self) == (Configuration { header: value, ..*old(self) }),
    {
        self.header = value;
    }

    pub fn style(&mut self, value: Style)
        ensures
            *final(self) == (Configuration { style: value, ..*old(self) }),
    {
        self.style = value;
    }

    pub fn dashtype(&mut self, value: usize)
        ensures
            *final(self) == (Configuration { dashtype: Some(value), ..*old(self) }),
    {
        self.dashtype = Some(value);
    }

    pub fn date(&mut self, value: String)
        ensures
            *final(self) == (Configuration { date: value, ..*old(self) }),
    {
        self.date = value;
    }

    pub fn id(&mut self, value: String)
        ensures
            *final(self) == (Configuration { id: Some(value), ..*old(self) }),
    {
        self.id = Some(value);
    }

    /// Stores `value` under `key` in the custom pairs: the entry holding
    /// `key` is overwritten in place if one exists, else a new entry is
    /// appended. Every other key keeps its value.
    pub fn custom(&mut self, key: String, value: String)
        ensures
            *final(self) == (Configuration { custom: final(self).custom, ..*old(self) }),
            forall|k: Seq<char>| #[trigger] lookup(final(self).custom@, k) == (if k == key@ {
                Some(value@)
            } else {
                lookup(old(self).custom@, k)
            }),
    {
        let ghost s0 = self.custom@;
        let ghost gkey = key@;
        let ghost gvalue = value@;
        let mut i: usize = 0;
        while i < self.custom.len()
            invariant
                *self == *old(self),
                s0 == self.custom@,
                i <= self.custom@.len(),
                forall|j: int| 0 <= j < i ==> self.custom@[j].0@ != gkey,
                gkey == key@,
                gvalue == value@,
            decreases self.custom@.len() - i,
        {
            if self.custom[i].0 == key {
                let pair = (key, value);
                let ghost gpair = pair;
                self.custom[i] = pair;
                proof {
                    assert(self.custom@ == s0.update(i as int, gpair));
                    assert forall|k: Seq<char>| #[trigger] lookup(self.custom@, k) == (if k
                        == gkey {
                        Some(gvalue)
                    } else {
                        lookup(s0, k)
                    }) by {
                        lemma_lookup_update(s0, i as int, gpair, k);
                    }
                }
                return ;
            }
            i += 1;
        }
        let pair = (key, value);
        let ghost gpair = pair;
        self.custom.push(pair);
        proof {
            assert(self.custom@ == s0.push(gpair));
            assert forall|k: Seq<char>| #[trigger] lookup(self.custom@, k) == (if k == gkey {
                Some(gvalue)
            } else {
                lookup(s0, k)
            }) by {
                lemma_lookup_push(s0, gpair, k);
            }
        }
    }


    /// `logx` under its other name.
    pub fn xlog(&mut self, value: String)
        ensures
            *final(self) == (Configuration { log_x: Some(value), ..*old(self) }),
    {
        self.logx(value);
    }

    /// `logy` under its other name.
    pub fn ylog(&mut self, value: String)
        ensures
            *final(self) == (Configuration { log_y: Some(value), ..*old(self) }),
    {
        self.logy(value);
    }

    /// `labelx` under its other name.
    pub fn xlabel(&mut self, value: String)
        ensures
            *final(self) == (Configuration { label_x: Some(value), ..*old(self) }),
    {
        self.labelx(value);
    }

    /// `labely` under its other name.
    pub fn ylabel(&mut self, value: String)
        ensures
            *final(self) == (Configuration { label_y: Some(value), ..*old(self) }),
    {
        self.labely(value);
    }

    /// `rangex` under its other name.
    pub fn xrange(&mut self, left: String, right: String)
        ensures
            *final(self) == (Configuration { range_x: Some((left, right)), ..*old(self) }),
    {
        self.rangex(left, right);
    }

    /// `rangey` under its other name.
    pub fn yrange(&mut self, down: String, up: String)
        ensures
            *final(self) == (Configuration { range_y: Some((down, up)), ..*old(self) }),
    {
        self.rangey(down, up);
    }

    pub fn get_title(&self) -> (r: Option<&String>)
        ensures
            match r {
                Some(t) => self.title == Some(*t),
                None => self.title is None,
            },
    {
        self.title.as_ref()
    }

    pub fn get_logx(&self) -> (r: Option<&String>)
        ensures
            match r {
                Some(v) => self.log_x == Some(*v),
                None => self.log_x is None,
            },
    {
        self.log_x.as_ref()
    }

    pub fn get_logy(&self) -> (r: Option<&String>)
        ensures
            match r {
                Some(v) => self.log_y == Some(*v),
                None => self.log_y is None,
            },
    {
        self.log_y.as_ref()
    }

    pub fn get_labelx(&self) -> (r: Option<&String>)
        ensures
            match r {
                Some(v) => self.label_x == Some(*v),
                None => self.label_x is None,
            },
    {
        self.label_x.as_ref()
    }

    pub fn get_labely(&self) -> (r: Option<&String>)
        ensures
            match r {
                Some(v) => self.label_y == Some(*v),
                None => self.label_y is None,
            },
    {
        self.label_y.as_ref()
    }

    pub fn get_rangex(&self) -> (r: Option<&(String, String)>)
        ensures
            match r {
                Some(v) => self.range_x == Some(*v),
                None => self.range_x is None,
            },
    {
        self.range_x.as_ref()
    }

    pub fn get_rangey(&self) -> (r: Option<&(String, String)>)
        ensures
            match r {
                Some(v) => self.range_y == Some(*v),
                None => self.range_y is None,
            },
    {
        self.range_y.as_ref()
    }

    pub fn get_extension(&self) -> (r: &str)
        ensures
            r@ == self.extension@,
    {
        self.extension.as_str()
    }

    pub fn get_header(&self) -> (r: bool)
        ensures
            r == self.header,
    {
        self.header
    }

    pub fn get_style(&self) -> (r: &Style)
        ensures
            *r == self.style,
    {
        &self.style
    }

    pub fn get_dashtype(&self) -> (r: Option<usize>)
        ensures
            r == self.dashtype,
    {
        self.dashtype
    }

    pub fn get_date(&self) -> (r: &String)
        ensures
            r@ == self.date@,
    {
        &self.date
    }

    pub fn get_id(&self) -> (r: Option<&String>)
        ensures
            match r {
                Some(v) => self.id == Some(*v),
                None => self.id is None,
            },
    {
        self.id.as_ref()
    }


    /// `get_logx` under its other name.
    pub fn get_xlog(&self) -> (r: Option<&String>)
        ensures
            match r {
                Some(v) => self.log_x == Some(*v),
                None => self.log_x is None,
            },
    {
        self.get_logx()
    }

    /// `get_logy` under its other name.
    pub fn get_ylog(&self) -> (r: Option<&String>)
        ensures
            match r {
                Some(v) => self.log_y == Some(*v),
                None => self.log_y is None,
            },
    {
        self.get_logy()
    }

    /// `get_labelx` under its other name.
    pub fn get_xlabel(&self) -> (r: Option<&String>)
        ensures
            match r {
                Some(v) => self.label_x == Some(*v),
                None => self.label_x is None,
            },
    {
        self.get_labelx()
    }

    /// `get_labely` under its other name.
    pub fn get_ylabel(&self) -> (r: Option<&String>)
        ensures
            match r {
                Some(v) => self.label_y == Some(*v),
                None => self.label_y is None,
            },
    {
        self.get_labely()
    }

    /// `get_rangex` under its other name.
    pub fn get_xrange(&self) -> (r: Option<&(String, String)>)
        ensures
            match r {
                Some(v) => self.range_x == Some(*v),
                None => self.range_x is None,
            },
    {
        self.get_rangex()
    }

    /// `get_rangey` under its other name.
    pub fn get_yrange(&self) -> (r: Option<&(String, String)>)
        ensures
            match r {
                Some(v) => self.range_y == Some(*v),
                None => self.range_y is None,
            },
    {
        self.get_rangey()
    }

    /// The stored id, owed exactly when one is set; the distinct
    /// precondition-failure kind otherwise.
    pub fn get_checked_id(&self) -> (r: Result<&String, SavingError>)
        ensures
            match r {
                Ok(s) => self.id == Some(*s),
                Err(e) => self.id is None && e == SavingError::MissingId,
            },
    {
        match &self.id {
            Some(s) => Ok(s),
            None => Err(SavingError::MissingId),
        }
    }

    /// The value stored under `key`, if any.
    pub fn get_custom(&self, key: String) -> (r: Option<&String>)
        ensures
            match r {
                Some(v) => lookup(self.custom@, key@) == Some(v@),
                None => lookup(self.custom@, key@) is None,
            },
    {
        let mut i: usize = 0;
        while i < self.custom.len()
            invariant
                i <= self.custom@.len(),
                forall|j: int| 0 <= j < i ==> self.custom@[j].0@ != key@,
            decreases self.custom@.len() - i,
        {
            if self.custom[i].0 == key {
                proof {
                    lemma_lookup_first_match(self.custom@, i as int, key@);
                }
                return Some(&self.custom[i].1);
            }
            i += 1;
        }
        proof {
            lemma_lookup_no_match(self.custom@, key@);
        }
        None
    }
}

impl Default for Configuration {
    fn default() -> (r: Self)
        ensures
            is_default_except_date(r),
    {
        Configuration::new()
    }
}

/// Last write wins for every plain option: storing a value and then
/// storing another leaves a configuration holding exactly the second, with
/// every other field untouched. Each setter's contract is the functional
/// update written here, so chaining two calls of the same setter is the
/// same as calling it once with the later value.
pub proof fn lemma_option_last_write_wins(c: Configuration, v1: String, v2: String)
    ensures
        (Configuration { title: Some(v1), ..c }).title == Some(v1),
        (Configuration { title: Some(v2), ..(Configuration { title: Some(v1), ..c }) })
            == (Configuration { title: Some(v2), ..c }),
        (Configuration { id: Some(v1), ..c }).id == Some(v1),
        (Configuration { id: Some(v2), ..(Configuration { id: Some(v1), ..c }) })
            == (Configuration { id: Some(v2), ..c }),
        (Configuration { label_x: Some(v1), ..c }).label_x == Some(v1),
        (Configuration { label_x: Some(v2), ..(Configuration { label_x: Some(v1), ..c }) })
            == (Configuration { label_x: Some(v2), ..c }),
        (Configuration { extension: v1, ..c }).extension == v1,
        (Configuration { extension: v2, ..(Configuration { extension: v1, ..c }) })
            == (Configuration { extension: v2, ..c }),
{
}

/// Re-setting a custom key overwrites that key only, and the last write
/// wins: two stores under one key, as the setter's contract describes
/// them, read back as if only the second had happened, and every other
/// key keeps the value it had at the start.
pub proof fn lemma_custom_last_write_wins(
    s0: Seq<(String, String)>,
    s1: Seq<(String, String)>,
    s2: Seq<(String, String)>,
    key: Seq<char>,
    v1: Seq<char>,
    v2: Seq<char>,
)
    requires
        forall|k: Seq<char>| #[trigger] lookup(s1, k) == (if k == key {
            Some(v1)
        } else {
            lookup(s0, k)
        }),
        forall|k: Seq<char>| #[trigger] lookup(s2, k) == (if k == key {
            Some(v2)
        } else {
            lookup(s1, k)
        }),
    ensures
        forall|k: Seq<char>| #[trigger] lookup(s2, k) == (if k == key {
            Some(v2)
        } else {
            lookup(s0, k)
        }),
{
}

proof fn lemma_lookup_update(s: Seq<(String, String)>, i: int, p: (String, String), k: Seq<char>)
    requires
        0 <= i < s.len(),
        s[i].0@ == p.0@,
        forall|j: int| 0 <= j < i ==> s[j].0@ != p.0@,
    ensures
        lookup(s.update(i, p), k) == (if k == p.0@ {
            Some(p.1@)
        } else {
            lookup(s, k)
        }),
    decreases i,
{
    let s2 = s.update(i, p);
    if i == 0 {
        assert(s2.drop_first() =~= s.drop_first());
    } else {
        assert(s2[0] == s[0]);
        assert(s2.drop_first() =~= s.drop_first().update(i - 1, p));
        assert(s.drop_first()[i - 1] == s[i]);
        assert(forall|j: int| 0 <= j < i - 1 ==> s.drop_first()[j] == s[j + 1]);
        lemma_lookup_update(s.drop_first(), i - 1, p, k);
    }
}

proof fn lemma_lookup_push(s: Seq<(String, String)>, p: (String, String), k: Seq<char>)
    requires
        forall|j: int| 0 <= j < s.len() ==> s[j].0@ != p.0@,
    ensures
        lookup(s.push(p), k) == (if k == p.0@ {
            Some(p.1@)
        } else {
            lookup(s, k)
        }),
    decreases s.len(),
{
    let s2 = s.push(p);
    if s.len() == 0 {
        assert(s2[0] == p);
        assert(s2.drop_first() =~= Seq::<(String, String)>::empty());
    } else {
        assert(s2[0] == s[0]);
        assert(s2.drop_first() =~= s.drop_first().push(p));
        assert(forall|j: int| 0 <= j < s.drop_first().len() ==> s.drop_first()[j] == s[j + 1]);
        lemma_lookup_push(s.drop_first(), p, k);
    }
}

proof fn lemma_lookup_first_match(s: Seq<(String, String)>, i: int, key: Seq<char>)
    requires
        0 <= i < s.len(),
        s[i].0@ == key,
        forall|j: int| 0 <= j < i ==> s[j].0@ != key,
    ensures
        lookup(s, key) == Some(s[i].1@),
    decreases i,
{
    if i == 0 {
    } else {
        assert(s.drop_first()[i - 1] == s[i]);
        assert(forall|j: int| 0 <= j < i - 1 ==> s.drop_first()[j] == s[j + 1]);
        lemma_lookup_first_match(s.drop_first(), i - 1, key);
    }
}

proof fn lemma_lookup_no_match(s: Seq<(String, String)>, key: Seq<char>)
    requires
        forall|j: int| 0 <= j < s.len() ==> s[j].0@ != key,
    ensures
        lookup(s, key) is None,
    decreases s.len(),
{
    if s.len() == 0 {
    } else {
        assert(forall|j: int| 0 <= j < s.drop_first().len() ==> s.drop_first()[j] == s[j + 1]);
        lemma_lookup_no_match(s.drop_first(), key);
    }
}

} // verus!
