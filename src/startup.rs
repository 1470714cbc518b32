//! Decisions of service startup: which configured packages to serve, the
//! message that describes them, and the settings of each protocol session.
use vstd::prelude::*;
use crate::text::{decimal, decimal_text, join, joined};

verus! {

/// The configured names that the request keeps: all of them when none are
/// requested, else those requested, in configuration order.
pub open spec fn spec_select(configured: Seq<Seq<char>>, requested: Seq<Seq<char>>) -> Seq<Seq<char>>
    decreases configured.len(),
{
    if configured.len() == 0 {
        Seq::empty()
    } else {
        let rest = spec_select(configured.drop_last(), requested);
        if requested.len() == 0 || requested.contains(configured.last()) {
            rest.push(configured.last())
        } else {
            rest
        }
    }
}

fn has_name(names: &Vec<String>, name: &String) -> (r: bool)
    ensures
        r == names.deep_view().contains(name@),
{
    let mut i: usize = 0;
    while i < names.len()
        invariant
            i <= names.len(),
            forall|j: int| 0 <= j < i ==> names.deep_view()[j] != name@,
        decreases names.len() - i,
    {
        if names[i] == *name {
            proof {
                assert(names.deep_view()[i as int] == name@);
            }
            return true;
        }
        i = i + 1;
    }
    false
}

/// The packages to serve among the enabled configured ones.
pub fn select_packages(configured: &Vec<String>, requested: &Vec<String>) -> (r: Vec<String>)
    ensures
        r.deep_view() == spec_select(configured.deep_view(), requested.deep_view()),
{
    let mut out: Vec<String> = Vec::new();
    let mut i: usize = 0;
    while i < configured.len()
        invariant
            i <= configured.len(),
            out.deep_view() == spec_select(configured.deep_view().take(i as int), requested.deep_view()),
        decreases configured.len() - i,
    {
        proof {
            assert(configured.deep_view().take(i as int + 1).drop_last() =~= configured.deep_view().take(
                i as int,
            ));
        }
        if requested.len() == 0 || has_name(requested, &configured[i]) {
            let ghost before = out.deep_view();
            let item = configured[i].clone();
            out.push(item);
            proof {
                assert(out.deep_view() =~= before.push(configured.deep_view()[i as int]));
            }
        }
        i = i + 1;
    }
    proof {
        assert(configured.deep_view().take(configured.len() as int) =~= configured.deep_view());
    }
    out
}

/// Sum of the known document counts.
pub open spec fn known_total(counts: Seq<Option<u32>>) -> nat
    decreases counts.len(),
{
    if counts.len() == 0 {
        0
    } else {
        known_total(counts.drop_last()) + match counts.last() {
            Some(c) => c as nat,
            None => 0,
        }
    }
}

/// `name (count)` for each package whose count is known, in order.
pub open spec fn count_entries(names: Seq<Seq<char>>, counts: Seq<Option<u32>>) -> Seq<Seq<char>>
    decreases counts.len(),
{
    if counts.len() == 0 || names.len() < counts.len() {
        Seq::empty()
    } else {
        let n = counts.len() - 1;
        let rest = count_entries(names.take(n), counts.drop_last());
        match counts.last() {
            Some(c) => rest.push(names[n] + " ("@ + decimal(c as nat) + ")"@),
            None => rest,
        }
    }
}

/// Message describing what the service starts with. `counts[i]` is the document
/// count of `available[i]`, when its statistics are known.
pub open spec fn spec_startup_message(
    available: Seq<Seq<char>>,
    missing: Seq<Seq<char>>,
    counts: Seq<Option<u32>>,
) -> Seq<char> {
    if available.len() == 0 {
        if missing.len() == 0 {
            "HTTP SSE MCP server initialized with no crates. Use the 'add_crate' tool to configure crates."@
        } else {
            "HTTP SSE MCP server initialized. "@ + decimal(missing.len()) + " crates configured but not populated: "@
                + joined(missing, ", "@) + ". Use MCP tools to manage crates."@
        }
    } else if available.len() == 1 {
        let note = if missing.len() == 0 {
            Seq::empty()
        } else {
            " (Note: "@ + decimal(missing.len()) + " crates pending population: "@ + joined(missing, ", "@)
                + ")"@
        };
        "HTTP SSE MCP server for crate '"@ + available[0] + "' initialized. "@ + decimal(
            known_total(counts),
        ) + " documents available via database search."@ + note
    } else {
        let note = if missing.len() == 0 {
            Seq::empty()
        } else {
            " Note: "@ + decimal(missing.len()) + " crates pending population: "@ + joined(missing, ", "@)
        };
        "HTTP SSE MCP multi-crate server initialized. "@ + decimal(known_total(counts))
            + " total documents available from "@ + decimal(available.len()) + " crates: "@ + joined(
            count_entries(available, counts),
            ", "@,
        ) + "."@ + note
    }
}

proof fn lemma_total_bound(counts: Seq<Option<u32>>)
    ensures
        known_total(counts) <= counts.len() * (u32::MAX as nat),
    decreases counts.len(),
{
    if counts.len() > 0 {
        lemma_total_bound(counts.drop_last());
        assert((counts.len() - 1) * (u32::MAX as nat) + u32::MAX as nat == counts.len() * (
        u32::MAX as nat)) by (nonlinear_arith);
    }
}

pub fn startup_message(available: &Vec<String>, missing: &Vec<String>, counts: &Vec<Option<u32>>) -> (r: String)
    requires
        counts.len() == available.len(),
        counts.len() <= u32::MAX,
    ensures
        r@ == spec_startup_message(available.deep_view(), missing.deep_view(), counts@),
{
    let mut total: u64 = 0;
    let mut entries: Vec<String> = Vec::new();
    let mut i: usize = 0;
    while i < counts.len()
        invariant
            i <= counts.len(),
            counts.len() == available.len(),
            counts.len() <= u32::MAX,
            total == known_total(counts@.take(i as int)),
            entries.deep_view() == count_entries(available.deep_view().take(i as int), counts@.take(i as int)),
        decreases counts.len() - i,
    {
        proof {
            assert(counts@.take(i as int + 1).drop_last() =~= counts@.take(i as int));
            assert(available.deep_view().take(i as int + 1).take(i as int) =~= available.deep_view().take(i as int));
            lemma_total_bound(counts@.take(i as int + 1));
            assert((i + 1) * (u32::MAX as nat) <= (u32::MAX as nat) * (u32::MAX as nat)) by (nonlinear_arith)
                requires i + 1 <= u32::MAX;
        }
        match counts[i] {
            Some(c) => {
                total = total + c as u64;
                let entry = available[i].as_str().to_owned().concat(" (").concat(
                    decimal_text(c as u64).as_str(),
                ).concat(")");
                let ghost before = entries.deep_view();
                entries.push(entry);
                proof {
                    assert(entries.deep_view() =~= before.push(entry@));
                }
            },
            None => {},
        }
        i = i + 1;
    }
    proof {
        assert(counts@.take(counts.len() as int) =~= counts@);
        assert(available.deep_view().take(counts.len() as int) =~= available.deep_view());
    }
    let m = missing.len() as u64;
    let missing_list = join(missing, ", ");
    if available.len() == 0 {
        if missing.len() == 0 {
            String::from_str(
                "HTTP SSE MCP server initialized with no crates. Use the 'add_crate' tool to configure crates.",
            )
        } else {
            String::from_str("HTTP SSE MCP server initialized. ").concat(decimal_text(m).as_str()).concat(
                " crates configured but not populated: ",
            ).concat(missing_list.as_str()).concat(". Use MCP tools to manage crates.")
        }
    } else if available.len() == 1 {
        let note = if missing.len() == 0 {
            String::new()
        } else {
            String::from_str(" (Note: ").concat(decimal_text(m).as_str()).concat(
                " crates pending population: ",
            ).concat(missing_list.as_str()).concat(")")
        };
        String::from_str("HTTP SSE MCP server for crate '").concat(available[0].as_str()).concat(
            "' initialized. ",
        ).concat(decimal_text(total).as_str()).concat(" documents available via database search.")
            .concat(note.as_str())
    } else {
        let note = if missing.len() == 0 {
            String::new()
        } else {
            String::from_str(" Note: ").concat(decimal_text(m).as_str()).concat(
                " crates pending population: ",
            ).concat(missing_list.as_str())
        };
        String::from_str("HTTP SSE MCP multi-crate server initialized. ").concat(
            decimal_text(total).as_str(),
        ).concat(" total documents available from ").concat(
            decimal_text(available.len() as u64).as_str(),
        ).concat(" crates: ").concat(join(&entries, ", ").as_str()).concat(".").concat(note.as_str())
    }
}

/// Settings of one protocol session.
#[derive(Debug, Clone, Copy, PartialEq, Eq, Structural)]
pub struct ConnectionConfig {
    pub initialize_timeout_ms: u64,
    pub max_retries: u32,
    pub retry_base_delay_ms: u64,
    pub retry_max_delay_ms: u64,
    pub verbose_logging: bool,
}

impl Default for ConnectionConfig {
    /// Thirty seconds to initialise a session.
    fn default() -> (r: ConnectionConfig)
        ensures
            r.initialize_timeout_ms == 30000,
            r.max_retries == 3,
            r.retry_base_delay_ms == 500,
            r.retry_max_delay_ms == 10000,
            r.verbose_logging,
    {
        ConnectionConfig {
            initialize_timeout_ms: 30000,
            max_retries: 3,
            retry_base_delay_ms: 500,
            retry_max_delay_ms: 10000,
            verbose_logging: true,
        }
    }
}

/// Name of the `n`-th accepted connection.
pub fn connection_id(n: u64) -> (r: String)
    ensures
        r@ == "conn-"@ + decimal(n as nat),
{
    String::from_str("conn-").concat(decimal_text(n).as_str())
}

} // verus!
