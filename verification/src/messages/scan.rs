//! Virus scanning of message attachments: settings and the tally of a scan.
use vstd::prelude::*;

verus! {

/// Per guild settings of the scanner.
pub struct ScannerSettings {
    pub active: bool,
}

impl ScannerSettings {
    pub fn new() -> (r: Self)
        ensures
            r.active,
    {
        ScannerSettings { active: true }
    }
}

/// The colour of a scan report: red when something was found, yellow when
/// too many blocks failed, green otherwise.
#[derive(Clone, Copy, PartialEq, Eq, Structural, Debug)]
pub enum ReportColour {
    Red,
    Yellow,
    Green,
}

/// How the blocks of a scanned file fared.
#[derive(Clone, Copy, PartialEq, Eq, Structural, Debug)]
pub struct ScanResult {
    pub clean: u32,
    pub infected: u32,
    pub failed: u32,
}

impl ScanResult {
    pub fn new(c: u32, i: u32, f: u32) -> (r: Self)
        ensures
            r == (ScanResult { clean: c, infected: i, failed: f }),
    {
        ScanResult { clean: c, infected: i, failed: f }
    }

    /// The number of blocks scanned.
    pub open spec fn spec_total(&self) -> int {
        self.clean + self.infected + self.failed
    }

    /// Whether the scanner found something in some block.
    pub fn has_infected_block(&self) -> (r: bool)
        ensures
            r == (self.infected > 0),
    {
        self.infected > 0
    }

    pub fn total(&self) -> (r: u32)
        requires
            self.spec_total() <= u32::MAX,
        ensures
            r == self.spec_total(),
    {
        self.clean + self.infected + self.failed
    }
}

} // verus!

verus! {

/// The colour of the report on `result`, given whether too many of its blocks
/// failed.
pub fn report_colour(result: &ScanResult, too_many_failed: bool) -> (c: ReportColour)
    ensures
        c == (if result.infected > 0 {
            ReportColour::Red
        } else if too_many_failed {
            ReportColour::Yellow
        } else {
            ReportColour::Green
        }),
{
    if result.has_infected_block() {
        ReportColour::Red
    } else if too_many_failed {
        ReportColour::Yellow
    } else {
        ReportColour::Green
    }
}

/// How scanning one block of a file went: `None` when the block could not be
/// read; `Some(Err(..))` when the scanner failed on it; `Some(Ok(None))` when
/// it is clean; `Some(Ok(Some(report)))` when the scanner found something.
pub type BlockOutcome = Option<Result<Option<String>, String>>;

pub open spec fn block_failed(b: BlockOutcome) -> bool {
    b is None || b matches Some(Err(_))
}

pub open spec fn block_infected(b: BlockOutcome) -> bool {
    b matches Some(Ok(Some(_)))
}

pub open spec fn block_clean(b: BlockOutcome) -> bool {
    b matches Some(Ok(None))
}

/// The tally of a sequence of block outcomes: clean, infected and failed blocks.
pub open spec fn tally_of(blocks: Seq<BlockOutcome>) -> (nat, nat, nat)
    decreases blocks.len(),
{
    if blocks.len() == 0 {
        (0, 0, 0)
    } else {
        let (c, i, f) = tally_of(blocks.drop_last());
        let b = blocks.last();
        if block_clean(b) {
            (c + 1, i, f)
        } else if block_infected(b) {
            (c, i + 1, f)
        } else {
            (c, i, f + 1)
        }
    }
}

/// The blocks that are clean.
pub open spec fn clean_blocks(blocks: Seq<BlockOutcome>) -> Seq<BlockOutcome> {
    blocks.filter(|b: BlockOutcome| block_clean(b))
}

/// The blocks in which the scanner found something.
pub open spec fn infected_blocks(blocks: Seq<BlockOutcome>) -> Seq<BlockOutcome> {
    blocks.filter(|b: BlockOutcome| block_infected(b))
}

/// The blocks that could not be read or scanned.
pub open spec fn failed_blocks(blocks: Seq<BlockOutcome>) -> Seq<BlockOutcome> {
    blocks.filter(|b: BlockOutcome| block_failed(b))
}

/// Each block is counted by its own outcome, wherever it stands: the tally
/// holds as many clean, infected and failed blocks as the sequence has.
pub proof fn lemma_tally_counts_by_outcome(blocks: Seq<BlockOutcome>)
    ensures
        tally_of(blocks).0 == clean_blocks(blocks).len(),
        tally_of(blocks).1 == infected_blocks(blocks).len(),
        tally_of(blocks).2 == failed_blocks(blocks).len(),
    decreases blocks.len(),
{
    reveal(Seq::filter);
    if blocks.len() > 0 {
        lemma_tally_counts_by_outcome(blocks.drop_last());
    }
}

/// Every block is counted once, as clean, infected or failed.
pub proof fn lemma_tally_counts_every_block(blocks: Seq<BlockOutcome>)
    ensures
        tally_of(blocks).0 + tally_of(blocks).1 + tally_of(blocks).2 == blocks.len(),
    decreases blocks.len(),
{
    if blocks.len() > 0 {
        lemma_tally_counts_every_block(blocks.drop_last());
    }
}

/// Tallies the outcomes of the blocks of a file.
pub fn tally_blocks(blocks: &Vec<BlockOutcome>) -> (r: ScanResult)
    requires
        blocks@.len() <= u32::MAX,
    ensures
        (r.clean as nat, r.infected as nat, r.failed as nat) == tally_of(blocks@),
        r.clean == clean_blocks(blocks@).len(),
        r.infected == infected_blocks(blocks@).len(),
        r.failed == failed_blocks(blocks@).len(),
        r.spec_total() == blocks@.len(),
{
    let mut clean: u32 = 0;
    let mut infected: u32 = 0;
    let mut failed: u32 = 0;
    let mut k: usize = 0;
    while k < blocks.len()
        invariant
            k <= blocks@.len() <= u32::MAX,
            (clean as nat, infected as nat, failed as nat) == tally_of(blocks@.take(k as int)),
        decreases blocks@.len() - k,
    {
        proof {
            assert(blocks@.take(k + 1).drop_last() =~= blocks@.take(k as int));
            lemma_tally_counts_every_block(blocks@.take(k as int));
        }
        match &blocks[k] {
            Some(Ok(None)) => {
                clean = clean + 1;
            },
            Some(Ok(Some(_))) => {
                infected = infected + 1;
            },
            _ => {
                failed = failed + 1;
            },
        }
        k = k + 1;
    }
    proof {
        assert(blocks@.take(k as int) =~= blocks@);
        lemma_tally_counts_every_block(blocks@);
        lemma_tally_counts_by_outcome(blocks@);
    }
    ScanResult::new(clean, infected, failed)
}

/// `text` holds `pat` as a stretch of consecutive characters.
pub open spec fn contains_text(text: Seq<char>, pat: Seq<char>) -> bool {
    exists|i: int| 0 <= i && i + pat.len() <= text.len() && #[trigger] text.subrange(i, i + pat.len()) == pat
}

/// A scanner reply says the data is clean: it holds `OK` and not `FOUND`.
pub open spec fn reply_clean(text: Seq<char>) -> bool {
    contains_text(text, "OK"@) && !contains_text(text, "FOUND"@)
}

/// `clamav_client::clean`: whether a ClamAV reply says the data is clean.
/// Trusted to fail exactly on replies that are not UTF-8, and otherwise to
/// answer whether the decoded reply holds `OK` and not `FOUND`.
#[verifier::external_body]
fn clamav_reply_clean(response: &[u8]) -> (r: Option<bool>)
    ensures
        r is Some <==> vstd::utf8::valid_utf8(response@),
        r matches Some(c) ==> c == reply_clean(vstd::utf8::decode_utf8(response@)),
{
    clamav_client::clean(response).ok()
}

/// `String::from_utf8`: trusted to fail exactly on bytes that are not UTF-8,
/// and otherwise to give the text they encode.
#[verifier::external_body]
fn string_from_utf8(bytes: Vec<u8>) -> (r: Option<String>)
    ensures
        r is Some <==> vstd::utf8::valid_utf8(bytes@),
        r matches Some(s) ==> s@ == vstd::utf8::decode_utf8(bytes@),
{
    String::from_utf8(bytes).ok()
}

/// What a scan of one block comes to, from the scanner's reply (`None` when
/// the scanner could not be reached or failed): `Err` when there is no reply;
/// `Ok(None)` when the reply says clean; otherwise `Ok(Some(reply))`.
pub fn interpret_scan_reply(reply: Option<Vec<u8>>) -> (r: Result<Option<String>, String>)
    requires
        reply matches Some(b) ==> vstd::utf8::valid_utf8(b@),
    ensures
        match reply {
            None => r matches Err(e) && e@ == "Failed to scan!"@,
            Some(b) => {
                let text = vstd::utf8::decode_utf8(b@);
                if reply_clean(text) {
                    r matches Ok(None)
                } else {
                    r matches Ok(Some(t)) && t@ == text
                }
            },
        },
{
    match reply {
        None => Err(crate::text::owned("Failed to scan!")),
        Some(b) => {
            let clean = clamav_reply_clean(b.as_slice());
            let text = string_from_utf8(b);
            match (clean, text) {
                (Some(true), _) => Ok(None),
                (_, Some(t)) => Ok(Some(t)),
                _ => Err(crate::text::owned("Failed to scan!")),
            }
        },
    }
}

} // verus!
