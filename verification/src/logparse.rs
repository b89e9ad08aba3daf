use vstd::prelude::*;

use crate::identity::{records_view, CommitRecord, CommitRecordView};
use crate::text::{split_str, split_text, texts_view};

verus! {

/// The fields of one log line: the parts between `|` separators.
pub open spec fn line_fields(l: Seq<char>) -> Seq<Seq<char>> {
    split_text(l, '|')
}

/// A line is well-formed exactly when it splits into four fields:
/// commit id, author email, author name, subject.
pub open spec fn line_is_well_formed(l: Seq<char>) -> bool {
    line_fields(l).len() == 4
}

/// The commit record a well-formed log line denotes.
pub open spec fn record_of_line(l: Seq<char>) -> CommitRecordView {
    let p = line_fields(l);
    CommitRecordView {
        commit_id: p[0],
        author_email: p[1],
        author_name: p[2],
        subject: p[3],
    }
}

/// Parses one `hash|email|name|subject` log line. A line with any other
/// field count yields nothing: malformed records are tolerated, never
/// turned into a commit record.
pub fn parse_log_line(line: &str) -> (r: Option<CommitRecord>)
    ensures
        r is Some <==> line_is_well_formed(line@),
        r is Some ==> r->Some_0@ == record_of_line(line@),
{
    let parts = split_str(line, '|');
    proof {
        assert(texts_view(parts@).len() == parts@.len());
    }
    if parts.len() == 4 {
        let record = CommitRecord {
            commit_id: parts[0].clone(),
            author_email: parts[1].clone(),
            author_name: parts[2].clone(),
            subject: parts[3].clone(),
        };
        proof {
            assert(record.commit_id@ == texts_view(parts@)[0]);
            assert(record.author_email@ == texts_view(parts@)[1]);
            assert(record.author_name@ == texts_view(parts@)[2]);
            assert(record.subject@ == texts_view(parts@)[3]);
        }
        Some(record)
    } else {
        None
    }
}

/// The commit records denoted by a sequence of log lines: one per
/// well-formed line, in order; malformed lines contribute nothing.
pub open spec fn records_of_lines(lines: Seq<Seq<char>>) -> Seq<CommitRecordView>
    decreases lines.len(),
{
    if lines.len() == 0 {
        Seq::<CommitRecordView>::empty()
    } else {
        let head = if line_is_well_formed(lines[0]) {
            seq![record_of_line(lines[0])]
        } else {
            Seq::<CommitRecordView>::empty()
        };
        head + records_of_lines(lines.drop_first())
    }
}

/// The commit records denoted by a whole log output, read line by line.
pub open spec fn records_of_log(s: Seq<char>) -> Seq<CommitRecordView> {
    records_of_lines(split_text(s, '\n'))
}

/// Parses a whole log output: splits it into lines and keeps the record
/// of every well-formed line, in log order.
pub fn parse_log(output: &str) -> (r: Vec<CommitRecord>)
    ensures
        records_view(r@) == records_of_log(output@),
{
    let lines = split_str(output, '\n');
    let ghost all = texts_view(lines@);
    let mut out: Vec<CommitRecord> = Vec::new();
    let mut i: usize = 0;
    proof {
        assert(records_view(out@) =~~= Seq::<CommitRecordView>::empty());
        assert(all.skip(0) =~= all);
        assert(records_of_lines(all) =~~= records_view(out@) + records_of_lines(all.skip(0)));
    }
    while i < lines.len()
        invariant
            0 <= i <= lines.len(),
            all == texts_view(lines@),
            records_of_lines(all) == records_view(out@) + records_of_lines(all.skip(i as int)),
        decreases lines.len() - i,
    {
        proof {
            assert(all.skip(i as int)[0] == lines@[i as int]@);
            assert(all.skip(i as int).drop_first() =~= all.skip(i + 1));
        }
        if let Some(record) = parse_log_line(lines[i].as_str()) {
            proof {
                assert(records_view(out@.push(record)) =~~= records_view(out@) + seq![record@]);
                assert(records_view(out@) + (seq![record@] + records_of_lines(all.skip(i + 1)))
                    =~~= (records_view(out@) + seq![record@]) + records_of_lines(all.skip(i + 1)));
            }
            out.push(record);
        }
        i += 1;
    }
    proof {
        assert(all.skip(lines@.len() as int) =~= Seq::<Seq<char>>::empty());
        assert(records_view(out@) + Seq::<CommitRecordView>::empty() =~~= records_view(out@));
    }
    out
}

} // verus!
