use crate::text::{decimal, decimal_string, opt_text, texts};
use vstd::prelude::*;
use vstd::string::*;

verus! {

/// What a scan is asked to do: the project it belongs to and the tuning
/// parameters, each of which may be left out.
#[derive(Clone, Debug, PartialEq, Eq)]
pub struct ScanRequest {
    pub project_id: String,
    pub interface: Option<String>,
    pub nmap_timeout: Option<u64>,
    pub nmap_parallel: Option<u32>,
    pub nmap_min_rate: Option<u32>,
    pub nmap_max_retries: Option<u32>,
    pub nmap_min_parallelism: Option<u32>,
    pub nmap_max_parallelism: Option<u32>,
    pub nmap_initial_rtt: Option<String>,
    pub nmap_max_rtt: Option<String>,
}

pub struct ScanRequestView {
    pub project_id: Seq<char>,
    pub interface: Option<Seq<char>>,
    pub nmap_timeout: Option<nat>,
    pub nmap_parallel: Option<nat>,
    pub nmap_min_rate: Option<nat>,
    pub nmap_max_retries: Option<nat>,
    pub nmap_min_parallelism: Option<nat>,
    pub nmap_max_parallelism: Option<nat>,
    pub nmap_initial_rtt: Option<Seq<char>>,
    pub nmap_max_rtt: Option<Seq<char>>,
}

pub open spec fn opt_wide(o: Option<u64>) -> Option<nat> {
    match o {
        Some(n) => Some(n as nat),
        None => None,
    }
}

pub open spec fn opt_narrow(o: Option<u32>) -> Option<nat> {
    match o {
        Some(n) => Some(n as nat),
        None => None,
    }
}

impl View for ScanRequest {
    type V = ScanRequestView;

    open spec fn view(&self) -> ScanRequestView {
        ScanRequestView {
            project_id: self.project_id@,
            interface: opt_text(self.interface),
            nmap_timeout: opt_wide(self.nmap_timeout),
            nmap_parallel: opt_narrow(self.nmap_parallel),
            nmap_min_rate: opt_narrow(self.nmap_min_rate),
            nmap_max_retries: opt_narrow(self.nmap_max_retries),
            nmap_min_parallelism: opt_narrow(self.nmap_min_parallelism),
            nmap_max_parallelism: opt_narrow(self.nmap_max_parallelism),
            nmap_initial_rtt: opt_text(self.nmap_initial_rtt),
            nmap_max_rtt: opt_text(self.nmap_max_rtt),
        }
    }
}

/// One row of the tuning table: a flag, and the value that follows it on the
/// command line where the parameter was given.
#[derive(Clone, Debug, PartialEq, Eq)]
pub struct TuningEntry {
    pub flag: String,
    pub value: Option<String>,
}

pub struct TuningEntryView {
    pub flag: Seq<char>,
    pub value: Option<Seq<char>>,
}

impl View for TuningEntry {
    type V = TuningEntryView;

    open spec fn view(&self) -> TuningEntryView {
        TuningEntryView { flag: self.flag@, value: opt_text(self.value) }
    }
}

/// The rows of a table, in order.
pub open spec fn rows(table: Seq<TuningEntry>) -> Seq<TuningEntryView> {
    table.map_values(|e: TuningEntry| e@)
}

/// The numeral of a number that may be absent.
pub open spec fn opt_decimal(o: Option<nat>) -> Option<Seq<char>> {
    match o {
        Some(n) => Some(decimal(n)),
        None => None,
    }
}

/// The tuning table of a request: one row for each parameter, given or not,
/// in the order in which the flags appear on the command line.
pub open spec fn tuning_rows(req: ScanRequestView) -> Seq<TuningEntryView> {
    seq![
        TuningEntryView { flag: "-i"@, value: req.interface },
        TuningEntryView { flag: "--nmap-timeout"@, value: opt_decimal(req.nmap_timeout) },
        TuningEntryView { flag: "--nmap-parallel"@, value: opt_decimal(req.nmap_parallel) },
        TuningEntryView { flag: "--nmap-min-rate"@, value: opt_decimal(req.nmap_min_rate) },
        TuningEntryView { flag: "--nmap-max-retries"@, value: opt_decimal(req.nmap_max_retries) },
        TuningEntryView {
            flag: "--nmap-min-parallelism"@,
            value: opt_decimal(req.nmap_min_parallelism),
        },
        TuningEntryView {
            flag: "--nmap-max-parallelism"@,
            value: opt_decimal(req.nmap_max_parallelism),
        },
        TuningEntryView { flag: "--nmap-initial-rtt"@, value: req.nmap_initial_rtt },
        TuningEntryView { flag: "--nmap-max-rtt"@, value: req.nmap_max_rtt },
    ]
}

/// What one row adds to the command line: the flag and its value where the
/// value is there, nothing where it is not.
pub open spec fn row_args(row: TuningEntryView) -> Seq<Seq<char>> {
    match row.value {
        Some(v) => seq![row.flag, v],
        None => Seq::empty(),
    }
}

/// What a table adds to the command line: what each row adds, row after row.
pub open spec fn table_args(table: Seq<TuningEntryView>) -> Seq<Seq<char>>
    decreases table.len(),
{
    if table.len() == 0 {
        Seq::empty()
    } else {
        table_args(table.drop_last()) + row_args(table.last())
    }
}

/// The rows whose value is there, in the table's order.
pub open spec fn supplied(table: Seq<TuningEntryView>) -> Seq<TuningEntryView>
    decreases table.len(),
{
    if table.len() == 0 {
        Seq::empty()
    } else if table.last().value.is_some() {
        supplied(table.drop_last()).push(table.last())
    } else {
        supplied(table.drop_last())
    }
}

/// The arguments that never change: the script, the output flag with the
/// output path, and the flag that answers every prompt with yes.
pub open spec fn fixed_args(script: Seq<char>, output: Seq<char>) -> Seq<Seq<char>> {
    seq![script, "-o"@, output, "--assume-yes"@]
}

/// The whole argument list of the scanner for a request.
pub open spec fn scan_arg_list(script: Seq<char>, output: Seq<char>, req: ScanRequestView) -> Seq<
    Seq<char>,
> {
    fixed_args(script, output) + table_args(tuning_rows(req))
}

fn text_row(flag: &str, value: &Option<String>) -> (res: TuningEntry)
    ensures
        res@ == (TuningEntryView { flag: flag@, value: opt_text(*value) }),
{
    let value = match value {
        Some(s) => Some(s.clone()),
        None => None,
    };
    TuningEntry { flag: String::from_str(flag), value }
}

fn wide_row(flag: &str, value: Option<u64>) -> (res: TuningEntry)
    ensures
        res@ == (TuningEntryView { flag: flag@, value: opt_decimal(opt_wide(value)) }),
{
    let value = match value {
        Some(n) => Some(decimal_string(n)),
        None => None,
    };
    TuningEntry { flag: String::from_str(flag), value }
}

fn narrow_row(flag: &str, value: Option<u32>) -> (res: TuningEntry)
    ensures
        res@ == (TuningEntryView { flag: flag@, value: opt_decimal(opt_narrow(value)) }),
{
    let value = match value {
        Some(n) => Some(decimal_string(n as u64)),
        None => None,
    };
    TuningEntry { flag: String::from_str(flag), value }
}

/// Builds the tuning table of a request.
pub fn tuning_table(req: &ScanRequest) -> (res: Vec<TuningEntry>)
    ensures
        rows(res@) == tuning_rows(req@),
{
    let mut table: Vec<TuningEntry> = Vec::new();
    table.push(text_row("-i", &req.interface));
    table.push(wide_row("--nmap-timeout", req.nmap_timeout));
    table.push(narrow_row("--nmap-parallel", req.nmap_parallel));
    table.push(narrow_row("--nmap-min-rate", req.nmap_min_rate));
    table.push(narrow_row("--nmap-max-retries", req.nmap_max_retries));
    table.push(narrow_row("--nmap-min-parallelism", req.nmap_min_parallelism));
    table.push(narrow_row("--nmap-max-parallelism", req.nmap_max_parallelism));
    table.push(text_row("--nmap-initial-rtt", &req.nmap_initial_rtt));
    table.push(text_row("--nmap-max-rtt", &req.nmap_max_rtt));
    assert(rows(table@) =~= tuning_rows(req@));
    table
}

/// Appends to `args` what the table adds to the command line.
pub fn push_table_args(args: &mut Vec<String>, table: &Vec<TuningEntry>)
    ensures
        texts(final(args)@) == texts(old(args)@) + table_args(rows(table@)),
{
    let ghost start = texts(args@);
    let mut i: usize = 0;
    assert(rows(table@).take(0) =~= Seq::<TuningEntryView>::empty());
    assert(texts(args@) =~= start + table_args(rows(table@).take(0)));
    while i < table.len()
        invariant
            i <= table.len(),
            texts(args@) == start + table_args(rows(table@).take(i as int)),
        decreases table.len() - i,
    {
        let ghost before = texts(args@);
        let ghost shorter = rows(table@).take(i as int);
        let ghost longer = rows(table@).take(i + 1);
        proof {
            assert(longer.drop_last() =~= shorter);
            assert(longer.last() == table@[i as int]@);
        }
        let entry = &table[i];
        match &entry.value {
            Some(v) => {
                args.push(entry.flag.clone());
                args.push(v.clone());
                assert(texts(args@) =~= before + seq![entry.flag@, v@]);
            },
            None => {},
        }
        assert(texts(args@) =~= start + table_args(longer));
        i = i + 1;
    }
    assert(rows(table@).take(i as int) =~= rows(table@));
}

/// Assembles the argument list of the scanner: the fixed arguments, then the
/// flag and value of each tuning parameter that the request gives, in the
/// table's order, and nothing for the others.
pub fn scan_args(script_path: &str, output_file: &str, req: &ScanRequest) -> (res: Vec<String>)
    ensures
        texts(res@) == scan_arg_list(script_path@, output_file@, req@),
{
    let mut args: Vec<String> = Vec::new();
    args.push(String::from_str(script_path));
    args.push(String::from_str("-o"));
    args.push(String::from_str(output_file));
    args.push(String::from_str("--assume-yes"));
    assert(texts(args@) =~= fixed_args(script_path@, output_file@));
    let table = tuning_table(req);
    push_table_args(&mut args, &table);
    args
}

/// The arguments that a table adds are exactly the flags and values of its
/// supplied rows: two for each, the flag first, in the table's order, and
/// nothing else.
pub proof fn lemma_table_args_are_supplied(table: Seq<TuningEntryView>)
    ensures
        table_args(table).len() == 2 * supplied(table).len(),
        supplied(table).len() <= table.len(),
        forall|k: int|
            0 <= k < supplied(table).len() ==> {
                &&& (#[trigger] supplied(table)[k]).value.is_some()
                &&& table_args(table)[2 * k] == supplied(table)[k].flag
                &&& table_args(table)[2 * k + 1] == supplied(table)[k].value.unwrap()
            },
    decreases table.len(),
{
    if table.len() > 0 {
        lemma_table_args_are_supplied(table.drop_last());
    }
}

/// A row is among the supplied rows exactly if it is a row of the table and
/// has a value: no supplied row is left out, and no other row comes in.
pub proof fn lemma_supplied_rows(table: Seq<TuningEntryView>, row: TuningEntryView)
    ensures
        supplied(table).contains(row) <==> table.contains(row) && row.value.is_some(),
    decreases table.len(),
{
    if table.len() > 0 {
        let shorter = table.drop_last();
        lemma_supplied_rows(shorter, row);
        if table.contains(row) {
            let i = choose|i: int| 0 <= i < table.len() && table[i] == row;
            if i < table.len() - 1 {
                assert(shorter[i] == row);
            }
        }
        if shorter.contains(row) {
            let i = choose|i: int| 0 <= i < shorter.len() && shorter[i] == row;
            assert(table[i] == row);
        }
        if table.last().value.is_some() {
            let s = supplied(shorter);
            assert(supplied(table) == s.push(table.last()));
            if s.push(table.last()).contains(row) {
                let i = choose|i: int| 0 <= i < s.push(table.last()).len() && s.push(table.last())[i] == row;
                if i < s.len() {
                    assert(s[i] == row);
                }
            }
            if s.contains(row) {
                let i = choose|i: int| 0 <= i < s.len() && s[i] == row;
                assert(s.push(table.last())[i] == row);
            }
            if row == table.last() {
                assert(s.push(table.last())[s.len() as int] == row);
                assert(table[table.len() - 1] == row);
            }
        }
    }
}

/// The argument list of a request is the four fixed arguments followed by
/// flag and value of each tuning parameter that was given, and is two
/// arguments longer for each of them.
pub proof fn lemma_scan_args_follow_presence(
    script: Seq<char>,
    output: Seq<char>,
    req: ScanRequestView,
)
    ensures
        scan_arg_list(script, output, req).len() == 4 + 2 * supplied(tuning_rows(req)).len(),
        scan_arg_list(script, output, req).take(4) == fixed_args(script, output),
        forall|k: int|
            0 <= k < supplied(tuning_rows(req)).len() ==> {
                &&& scan_arg_list(script, output, req)[4 + 2 * k] == (#[trigger] supplied(
                    tuning_rows(req),
                )[k]).flag
                &&& scan_arg_list(script, output, req)[4 + 2 * k + 1] == supplied(
                    tuning_rows(req),
                )[k].value.unwrap()
            },
{
    let table = tuning_rows(req);
    lemma_table_args_are_supplied(table);
    assert(scan_arg_list(script, output, req).take(4) =~= fixed_args(script, output));
    assert forall|k: int| 0 <= k < supplied(table).len() implies {
        &&& scan_arg_list(script, output, req)[4 + 2 * k] == (#[trigger] supplied(table)[k]).flag
        &&& scan_arg_list(script, output, req)[4 + 2 * k + 1] == supplied(
            table,
        )[k].value.unwrap()
    } by {
        assert(supplied(table)[k].value.is_some());
        assert(table_args(table)[2 * k] == supplied(table)[k].flag);
    }
}

/// Whether no two rows of a table have the same flag.
pub open spec fn distinct_flags(table: Seq<TuningEntryView>) -> bool {
    forall|i: int, j: int| 0 <= i < j < table.len() ==> table[i].flag != table[j].flag
}

/// Whether two tables have the same flags, row by row.
pub open spec fn same_flags(a: Seq<TuningEntryView>, b: Seq<TuningEntryView>) -> bool {
    &&& a.len() == b.len()
    &&& forall|i: int| 0 <= i < a.len() ==> (#[trigger] a[i]).flag == b[i].flag
}

proof fn lemma_present_in_both(a: Seq<TuningEntryView>, b: Seq<TuningEntryView>, j: int)
    requires
        same_flags(a, b),
        distinct_flags(b),
        table_args(a) == table_args(b),
        0 <= j < a.len(),
        a[j].value.is_some(),
    ensures
        b[j].value.is_some(),
{
    lemma_supplied_rows(a, a[j]);
    assert(a.contains(a[j]));
    let k = choose|k: int| 0 <= k < supplied(a).len() && supplied(a)[k] == a[j];
    lemma_table_args_are_supplied(a);
    lemma_table_args_are_supplied(b);
    assert(supplied(a)[k].value.is_some());
    assert(supplied(b)[k].value.is_some());
    assert(table_args(a)[2 * k] == a[j].flag);
    assert(supplied(b)[k].flag == b[j].flag);
    lemma_supplied_rows(b, supplied(b)[k]);
    assert(supplied(b).contains(supplied(b)[k]));
    let m = choose|m: int| 0 <= m < b.len() && b[m] == supplied(b)[k];
    assert(m == j);
}

/// Of two tables with the same flags, no flag twice, the arguments tell which
/// rows have a value: where the tables add the same arguments, they have
/// values in the same rows.
pub proof fn lemma_table_args_tell_presence(a: Seq<TuningEntryView>, b: Seq<TuningEntryView>)
    requires
        same_flags(a, b),
        distinct_flags(a),
        table_args(a) == table_args(b),
    ensures
        forall|j: int| 0 <= j < a.len() ==> (#[trigger] a[j]).value.is_some() == b[j].value.is_some(),
{
    assert(distinct_flags(b)) by {
        assert forall|i: int, j: int| 0 <= i < j < b.len() implies b[i].flag != b[j].flag by {
            assert(a[i].flag == b[i].flag);
            assert(a[j].flag == b[j].flag);
        }
    }
    assert(same_flags(b, a)) by {
        assert forall|i: int| 0 <= i < b.len() implies (#[trigger] b[i]).flag == a[i].flag by {
            assert(a[i].flag == b[i].flag);
        }
    }
    assert forall|j: int| 0 <= j < a.len() implies (#[trigger] a[j]).value.is_some()
        == b[j].value.is_some() by {
        if a[j].value.is_some() {
            lemma_present_in_both(a, b, j);
        }
        if b[j].value.is_some() {
            lemma_present_in_both(b, a, j);
        }
    }
}

/// The nine flags of the tuning table differ from each other.
pub proof fn lemma_tuning_flags_differ(req: ScanRequestView)
    ensures
        distinct_flags(tuning_rows(req)),
        tuning_rows(req).len() == 9,
{
    reveal_strlit("-i");
    reveal_strlit("--nmap-timeout");
    reveal_strlit("--nmap-parallel");
    reveal_strlit("--nmap-min-rate");
    reveal_strlit("--nmap-max-retries");
    reveal_strlit("--nmap-min-parallelism");
    reveal_strlit("--nmap-max-parallelism");
    reveal_strlit("--nmap-initial-rtt");
    reveal_strlit("--nmap-max-rtt");
    let t = tuning_rows(req);
    assert(t[0].flag.len() == 2);
    assert(t[1].flag.len() == 14 && t[1].flag[7] == 't');
    assert(t[2].flag.len() == 15 && t[2].flag[7] == 'p');
    assert(t[3].flag.len() == 15 && t[3].flag[7] == 'm');
    assert(t[4].flag.len() == 18 && t[4].flag[7] == 'm');
    assert(t[5].flag.len() == 22 && t[5].flag[8] == 'i');
    assert(t[6].flag.len() == 22 && t[6].flag[8] == 'a');
    assert(t[7].flag.len() == 18 && t[7].flag[7] == 'i');
    assert(t[8].flag.len() == 14 && t[8].flag[7] == 'm');
    assert forall|i: int, j: int| 0 <= i < j < t.len() implies t[i].flag != t[j].flag by {
        if t[i].flag == t[j].flag {
            assert(t[i].flag.len() == t[j].flag.len());
            assert(t[i].flag[7] == t[j].flag[7]);
            assert(t[i].flag[8] == t[j].flag[8]);
        }
    }
}

/// The argument list tells which tuning parameters a request gives: two
/// requests with the same argument list give the same parameters and leave
/// the same parameters out.
pub proof fn lemma_scan_args_tell_presence(
    script_a: Seq<char>,
    output_a: Seq<char>,
    a: ScanRequestView,
    script_b: Seq<char>,
    output_b: Seq<char>,
    b: ScanRequestView,
)
    requires
        scan_arg_list(script_a, output_a, a) == scan_arg_list(script_b, output_b, b),
    ensures
        a.interface.is_some() == b.interface.is_some(),
        a.nmap_timeout.is_some() == b.nmap_timeout.is_some(),
        a.nmap_parallel.is_some() == b.nmap_parallel.is_some(),
        a.nmap_min_rate.is_some() == b.nmap_min_rate.is_some(),
        a.nmap_max_retries.is_some() == b.nmap_max_retries.is_some(),
        a.nmap_min_parallelism.is_some() == b.nmap_min_parallelism.is_some(),
        a.nmap_max_parallelism.is_some() == b.nmap_max_parallelism.is_some(),
        a.nmap_initial_rtt.is_some() == b.nmap_initial_rtt.is_some(),
        a.nmap_max_rtt.is_some() == b.nmap_max_rtt.is_some(),
{
    let ta = tuning_rows(a);
    let tb = tuning_rows(b);
    lemma_tuning_flags_differ(a);
    assert(scan_arg_list(script_a, output_a, a).skip(4) =~= table_args(ta));
    assert(scan_arg_list(script_b, output_b, b).skip(4) =~= table_args(tb));
    lemma_table_args_tell_presence(ta, tb);
    assert(ta[0].value.is_some() == tb[0].value.is_some());
    assert(ta[1].value.is_some() == tb[1].value.is_some());
    assert(ta[2].value.is_some() == tb[2].value.is_some());
    assert(ta[3].value.is_some() == tb[3].value.is_some());
    assert(ta[4].value.is_some() == tb[4].value.is_some());
    assert(ta[5].value.is_some() == tb[5].value.is_some());
    assert(ta[6].value.is_some() == tb[6].value.is_some());
    assert(ta[7].value.is_some() == tb[7].value.is_some());
    assert(ta[8].value.is_some() == tb[8].value.is_some());
}

} // verus!
