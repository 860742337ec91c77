//! The daemon's configuration and its normalisation.
use vstd::prelude::*;
use crate::text::{
    replace_all, trim, trim_ws, replaced, decimal, all_ws, is_ws, lemma_decimal_digits,
    lemma_replaced_absent, lemma_replaced_prefix, lemma_trim_start, lemma_trim_end, lemma_decimal_parses, parsed_u32,
};

verus! {

/// Controller used when the configuration names none.
pub const DEFAULT_CHIP: &'static str = "/dev/gpiochip0";

/// Verbosity used when the configuration is written afresh.
pub const DEFAULT_LOG_LEVEL: u8 = 3;

/// The configuration: a controller, a verbosity (0 to 5) and two tables
/// from line identifiers to action names. A table is a list of entries in
/// which a later entry for a key replaces an earlier one.
pub struct AppConfig {
    pub master_chip: String,
    pub log_level: u8,
    pub input_binding: Vec<(String, String)>,
    pub output_binding: Vec<(String, String)>,
}

/// How verbose the log is.
#[derive(PartialEq, Eq, Structural, Clone, Copy, Debug)]
pub enum LogLevel {
    Off,
    Error,
    Warn,
    Info,
    Debug,
    Trace,
}

/// A table entry as plain text.
pub open spec fn entry_view(e: (String, String)) -> (Seq<char>, Seq<char>) {
    (e.0@, e.1@)
}

pub open spec fn entries_view(es: Seq<(String, String)>) -> Seq<(Seq<char>, Seq<char>)> {
    es.map_values(|e: (String, String)| entry_view(e))
}

/// A line identifier with every `gpio` removed and then trimmed.
pub open spec fn sanitised(key: Seq<char>) -> Seq<char> {
    trim_ws(replaced(key, "gpio"@, Seq::empty()))
}

/// Entry `i` of `es` is followed by no entry with the same key.
pub open spec fn is_last_for_key(es: Seq<(Seq<char>, Seq<char>)>, i: int) -> bool {
    forall|j: int| i < j < es.len() ==> #[trigger] es[j].0 != es[i].0
}

/// The entries among the first `n` of `es` that no later entry of `es`
/// replaces, in their order.
pub open spec fn kept(es: Seq<(Seq<char>, Seq<char>)>, n: nat) -> Seq<(Seq<char>, Seq<char>)>
    decreases n,
{
    if n == 0 {
        Seq::empty()
    } else if is_last_for_key(es, n - 1) {
        kept(es, (n - 1) as nat).push(es[n - 1])
    } else {
        kept(es, (n - 1) as nat)
    }
}

/// The table `es` with its keys sanitised, an entry replacing any earlier
/// one whose key became the same.
pub open spec fn sanitised_table(es: Seq<(Seq<char>, Seq<char>)>) -> Seq<(Seq<char>, Seq<char>)> {
    let s = es.map_values(|e: (Seq<char>, Seq<char>)| (sanitised(e.0), e.1));
    kept(s, s.len())
}

pub open spec fn level_of(input: u8) -> LogLevel {
    if input == 0 {
        LogLevel::Off
    } else if input == 2 {
        LogLevel::Warn
    } else if input == 3 {
        LogLevel::Info
    } else if input == 4 {
        LogLevel::Debug
    } else if input == 5 {
        LogLevel::Trace
    } else {
        LogLevel::Error
    }
}

impl Default for AppConfig {
    fn default() -> (r: AppConfig)
        ensures
            r.master_chip@ == DEFAULT_CHIP@,
            r.log_level == DEFAULT_LOG_LEVEL,
            r.input_binding@.len() == 0,
            r.output_binding@.len() == 0,
    {
        AppConfig {
            master_chip: DEFAULT_CHIP.to_owned(),
            log_level: DEFAULT_LOG_LEVEL,
            input_binding: Vec::new(),
            output_binding: Vec::new(),
        }
    }
}

/// The verbosity for a configured level; a level above 5 logs errors only.
pub fn log_level_to_enum(input: u8) -> (r: LogLevel)
    ensures
        r == level_of(input),
{
    match input {
        0 => LogLevel::Off,
        1 => LogLevel::Error,
        2 => LogLevel::Warn,
        3 => LogLevel::Info,
        4 => LogLevel::Debug,
        5 => LogLevel::Trace,
        _ => LogLevel::Error,
    }
}

/// A line identifier with every `gpio` removed, then trimmed.
pub fn sanitise_key(key: &str) -> (r: String)
    ensures
        r@ == sanitised(key@),
{
    let gpio = "gpio";
    let none = "";
    proof {
        reveal_strlit("gpio");
        reveal_strlit("");
        assert(none@ =~= Seq::<char>::empty());
    }
    let removed = replace_all(key, gpio, none);
    trim(removed.as_str()).to_owned()
}

/// The table with its keys sanitised; where two keys become the same, the
/// later entry replaces the earlier one.
pub fn sanitise_table(es: &Vec<(String, String)>) -> (r: Vec<(String, String)>)
    ensures
        entries_view(r@) == sanitised_table(entries_view(es@)),
{
    let ghost s = entries_view(es@).map_values(
        |e: (Seq<char>, Seq<char>)| (sanitised(e.0), e.1),
    );
    let n = es.len();
    let mut keys: Vec<String> = Vec::new();
    let mut i: usize = 0;
    while i < n
        invariant
            n == es@.len(),
            i <= n,
            keys@.len() == i,
            forall|k: int| 0 <= k < i ==> #[trigger] keys@[k]@ == sanitised(es@[k].0@),
        decreases n - i,
    {
        keys.push(sanitise_key(es[i].0.as_str()));
        i += 1;
    }
    assert(s.len() == n);
    assert(forall|k: int| 0 <= k < n ==> #[trigger] s[k] == (keys@[k]@, es@[k].1@));
    let mut out: Vec<(String, String)> = Vec::new();
    let mut i: usize = 0;
    while i < n
        invariant
            n == es@.len(),
            s.len() == n,
            i <= n,
            keys@.len() == n,
            forall|k: int| 0 <= k < n ==> #[trigger] s[k] == (keys@[k]@, es@[k].1@),
            entries_view(out@) == kept(s, i as nat),
        decreases n - i,
    {
        let mut later = false;
        let mut j: usize = i + 1;
        while j < n
            invariant
                n == es@.len(),
                s.len() == n,
                keys@.len() == n,
                forall|k: int| 0 <= k < n ==> #[trigger] s[k] == (keys@[k]@, es@[k].1@),
                i < j <= n,
                later == exists|m: int| i < m < j && #[trigger] s[m].0 == s[i as int].0,
            decreases n - j,
        {
            proof {
                assert(s[j as int] == (keys@[j as int]@, es@[j as int].1@));
                assert(s[i as int] == (keys@[i as int]@, es@[i as int].1@));
            }
            let ghost was = later;
            if keys[j] == keys[i] {
                later = true;
            }
            proof {
                if later && !was {
                    assert(i < j && s[j as int].0 == s[i as int].0);
                }
                if !later {
                    assert forall|m: int| i < m < j + 1 implies #[trigger] s[m].0 != s[i as int].0 by {
                        if m < j {
                            if s[m].0 == s[i as int].0 {
                                assert(i < m < j && s[m].0 == s[i as int].0);
                            }
                        }
                    }
                }
            }
            j += 1;
        }
        proof {
            if !later {
                assert forall|m: int| i < m < s.len() implies #[trigger] s[m].0 != s[i as int].0 by {
                    if s[m].0 == s[i as int].0 {
                        assert(i < m < j && s[m].0 == s[i as int].0);
                    }
                }
            }
        }
        if !later {
            let entry = (keys[i].clone(), es[i].1.clone());
            let ghost before = out@;
            out.push(entry);
            assert(entries_view(out@) =~= entries_view(before).push(entry_view(entry)));
        }
        i += 1;
    }
    out
}

/// The configuration with the keys of both tables sanitised.
pub fn sanitise_gpio_names(cfg: AppConfig) -> (r: AppConfig)
    ensures
        r.master_chip == cfg.master_chip,
        r.log_level == cfg.log_level,
        entries_view(r.input_binding@) == sanitised_table(entries_view(cfg.input_binding@)),
        entries_view(r.output_binding@) == sanitised_table(entries_view(cfg.output_binding@)),
{
    let input_binding = sanitise_table(&cfg.input_binding);
    let output_binding = sanitise_table(&cfg.output_binding);
    AppConfig { master_chip: cfg.master_chip, log_level: cfg.log_level, input_binding, output_binding }
}

/// A line identifier written as `gpio` and a number in decimal, with
/// whitespace around it, sanitises to that number's decimal string. (The
/// removal of `gpio` is case-sensitive: `GPIO` is kept.)
pub proof fn gpio_key_sanitises_to_number(lead: Seq<char>, n: nat, trail: Seq<char>)
    requires
        all_ws(lead),
        all_ws(trail),
    ensures
        sanitised(lead + "gpio"@ + decimal(n) + trail) == decimal(n),
        n <= u32::MAX ==> parsed_u32(sanitised(lead + "gpio"@ + decimal(n) + trail)) == Some(
            n as u32,
        ),
{
    reveal_strlit("gpio");
    let g = "gpio"@;
    let d = decimal(n);
    lemma_decimal_digits(n);
    let rest = d + trail;
    assert forall|i: int| 0 <= i < rest.len() implies #[trigger] rest[i] != g[0] by {
        if i < d.len() {
            assert(rest[i] == d[i]);
        } else {
            assert(rest[i] == trail[i - d.len()]);
        }
    }
    lemma_replaced_absent(rest, g, Seq::empty());
    let grest = g + rest;
    assert(grest.subrange(0, 4) =~= g);
    assert(grest.subrange(4, grest.len() as int) =~= rest);
    assert(replaced(grest, g, Seq::empty()) =~= rest);
    assert(lead + g + d + trail =~= lead + grest);
    lemma_replaced_prefix(lead, grest, g, Seq::empty());
    assert(lead + rest =~= lead + d + trail);
    assert(!is_ws(d[0]));
    lemma_trim_start(lead, rest);
    assert(rest.len() > 0);
    assert(rest[0] == d[0]);
    assert(!is_ws(d.last()));
    lemma_trim_end(d, trail);
    if n <= u32::MAX {
        lemma_decimal_parses(n);
    }
}

} // verus!
