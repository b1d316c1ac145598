//! The two append-only stores: their file names, their header lines, and
//! the rule that a header is written once, when the file is made.

use vstd::prelude::*;

verus! {

/// One of the two comma-separated files that a run appends to.
#[derive(Clone, Copy, Debug)]
pub enum Store {
    /// One row for each probe.
    Data,
    /// One row for each window that closed.
    Summary,
}

impl Store {
    /// The name of the store's file inside the output folder.
    pub open spec fn file_name_text(self) -> Seq<char> {
        match self {
            Store::Data => "ping-data.csv"@,
            Store::Summary => "ping-summary.csv"@,
        }
    }

    /// The store's header line, with its line end.
    pub open spec fn header_text(self) -> Seq<char> {
        match self {
            Store::Data => "Time,Target,Latency (ms),IsPacketLoss\n"@,
            Store::Summary =>
                "Time, Target, Sent, Lost, Lost (%), Min Latency (ms), Max Latency (ms), Avg Latency (ms)\n"@,
        }
    }

    /// The name of the store's file inside the output folder.
    pub fn file_name(&self) -> (name: &'static str)
        ensures
            name@ == self.file_name_text(),
    {
        match self {
            Store::Data => "ping-data.csv",
            Store::Summary => "ping-summary.csv",
        }
    }

    /// The store's header line, with its line end.
    pub fn header(&self) -> (line: &'static str)
        ensures
            line@ == self.header_text(),
    {
        match self {
            Store::Data => "Time,Target,Latency (ms),IsPacketLoss\n",
            Store::Summary =>
                "Time, Target, Sent, Lost, Lost (%), Min Latency (ms), Max Latency (ms), Avg Latency (ms)\n",
        }
    }

    /// What is written to the store's file right after it is opened: the
    /// header where the file was not there before, nothing else.
    pub fn opening_text(&self, is_new_file: bool) -> (text: &'static str)
        ensures
            text@ == opening(self.header_text(), is_new_file),
    {
        if is_new_file {
            self.header()
        } else {
            proof {
                reveal_strlit("");
            }
            assert(""@ =~= Seq::<char>::empty());
            ""
        }
    }
}

/// What opening a file writes to it: the header into a new file, nothing
/// into one that was there.
pub open spec fn opening(header: Seq<char>, is_new_file: bool) -> Seq<char> {
    if is_new_file {
        header
    } else {
        Seq::empty()
    }
}

/// The contents of a file after it was opened and `row`, if any, appended.
/// `contents` is `None` where the file was not there before.
pub open spec fn written(
    contents: Option<Seq<char>>,
    header: Seq<char>,
    row: Option<Seq<char>>,
) -> Seq<char> {
    let before = match contents {
        Some(text) => text,
        None => Seq::empty(),
    };
    let appended = match row {
        Some(text) => text,
        None => Seq::empty(),
    };
    before + opening(header, contents is None) + appended
}

/// The state of a file after one write for each item of `rows`, in order.
pub open spec fn written_all(
    contents: Option<Seq<char>>,
    header: Seq<char>,
    rows: Seq<Option<Seq<char>>>,
) -> Option<Seq<char>>
    decreases rows.len(),
{
    if rows.len() == 0 {
        contents
    } else {
        Some(written(written_all(contents, header, rows.drop_last()), header, rows.last()))
    }
}

/// The rows that are present, one after the other.
pub open spec fn joined(rows: Seq<Option<Seq<char>>>) -> Seq<char>
    decreases rows.len(),
{
    if rows.len() == 0 {
        Seq::empty()
    } else {
        match rows.last() {
            Some(text) => joined(rows.drop_last()) + text,
            None => joined(rows.drop_last()),
        }
    }
}

/// However many writes a file sees, its header is written once: a file that
/// was not there holds the header and then the rows, and a file that was
/// there holds what it held and then the rows.
pub proof fn lemma_header_once(
    contents: Option<Seq<char>>,
    header: Seq<char>,
    rows: Seq<Option<Seq<char>>>,
)
    requires
        rows.len() > 0,
    ensures
        contents is None ==> written_all(contents, header, rows) == Some(header + joined(rows)),
        contents is Some ==> written_all(contents, header, rows) == Some(
            contents->0 + joined(rows),
        ),
    decreases rows.len(),
{
    let earlier = rows.drop_last();
    let before = written_all(contents, header, earlier);
    if earlier.len() > 0 {
        lemma_header_once(contents, header, earlier);
    } else {
        assert(before == contents);
        assert(joined(earlier) =~= Seq::<char>::empty());
    }
    let after = written(before, header, rows.last());
    assert(written_all(contents, header, rows) == Some(after));
    if contents is None {
        assert(after =~= header + joined(rows));
    } else {
        assert(after =~= contents->0 + joined(rows));
    }
}

} // verus!
