//! How scanned data is put together from point of sale reports.

use vstd::prelude::*;

use crate::scanner::hid_pos::{HidData, HidPos, HidPosView};

verus! {

/// Whether a report carries scanned data.
pub open spec fn is_scan(report: Seq<u8>) -> bool {
    report.len() == 64 && report[0] == 2
}

/// A scanner has sent nothing when it is new, and passes over a report that
/// carries no scanned data.
pub proof fn law_other_reports_change_nothing(
    new: HidPos,
    device: &mut HidPos,
    report: &[u8],
    result: Option<HidData>,
)
    requires
        !is_scan(report@),
        call_ensures(HidPos::new, (), new),
        call_ensures(HidPos::receive, (device, report), result),
    ensures
        new@.buffered.len() == 0,
        result is None,
        final(device)@ == old(device)@,
{
}

/// A report that is followed by others adds its content to what is there, and
/// the last one gives all of it with its own symbology and leaves nothing. The
/// second byte of a report tells the length of its content, which starts at the
/// sixth byte. The third to the fifth byte are the symbology, and the last byte
/// is zero where no other report follows.
pub proof fn law_scan_is_taken(device: &mut HidPos, report: &[u8], result: Option<HidData>)
    requires
        is_scan(report@),
        report@[1] <= 59,
        call_ensures(HidPos::receive, (device, report), result),
    ensures
        ({
            let content = Seq::new(report@[1] as nat, |i: int| report@[5 + i]);
            let all = old(device)@.buffered + content;
            if report@[63] == 0 {
                &&& result matches Some(data) && data.value@ == all && data.symbology_id@[0]
                    == report@[2] && data.symbology_id@[1] == report@[3] && data.symbology_id@[2]
                    == report@[4]
                &&& final(device)@.buffered.len() == 0
            } else {
                &&& result is None
                &&& final(device)@.buffered == all
            }
        }),
{
    let content = Seq::new(report@[1] as nat, |i: int| report@[5 + i]);
    assert(report@.subrange(5, 5 + report@[1]) =~= content);
    if report@[63] == 0 {
        let data = result->Some_0;
        assert(data@.symbology_id == report@.subrange(2, 5));
        assert(data.symbology_id@[0] == report@.subrange(2, 5)[0]);
        assert(data.symbology_id@[1] == report@.subrange(2, 5)[1]);
        assert(data.symbology_id@[2] == report@.subrange(2, 5)[2]);
    }
}

/// Whether a report carries this content, and whether others follow.
pub open spec fn carries(report: Seq<u8>, content: Seq<u8>, more: bool) -> bool {
    &&& is_scan(report)
    &&& content.len() <= 59
    &&& report[1] == content.len()
    &&& forall|i: int| 0 <= i < content.len() ==> #[trigger] report[5 + i] == content[i]
    &&& (report[63] != 0 <==> more)
}

proof fn lemma_contents_are_buffered(reports: Seq<Seq<u8>>, contents: Seq<Seq<u8>>)
    requires
        reports.len() == contents.len(),
        forall|i: int| 0 <= i < reports.len() ==> carries(#[trigger] reports[i], contents[i], true),
    ensures
        HidPosView::start().received_all(reports).0.buffered == contents.flatten(),
        HidPosView::start().received_all(reports).1.len() == 0,
    decreases reports.len(),
{
    contents.lemma_flatten_and_flatten_alt_are_equivalent();
    if reports.len() > 0 {
        let before = reports.drop_last();
        lemma_contents_are_buffered(before, contents.drop_last());
        contents.drop_last().lemma_flatten_and_flatten_alt_are_equivalent();
        let report = reports[reports.len() - 1];
        let content = contents[contents.len() - 1];
        assert(carries(report, content, true));
        assert(report.subrange(5, 5 + report[1]) =~= content) by {
            assert forall|i: int| 0 <= i < content.len() implies report.subrange(5, 5 + report[1])[i]
                == content[i] by {
                assert(report[5 + i] == content[i]);
            }
        }
    }
}

/// Scanned data that is cut into contents comes out as these contents, one after
/// the other, with the last report.
pub proof fn law_scan_is_put_together(reports: Seq<Seq<u8>>, contents: Seq<Seq<u8>>)
    requires
        reports.len() > 0,
        reports.len() == contents.len(),
        forall|i: int|
            0 <= i < reports.len() ==> carries(
                #[trigger] reports[i],
                contents[i],
                i < reports.len() - 1,
            ),
    ensures
        ({
            let (device, given) = HidPosView::start().received_all(reports);
            &&& device.buffered.len() == 0
            &&& given.len() == 1
            &&& given[0].value == contents.flatten()
            &&& given[0].symbology_id == reports.last().subrange(2, 5)
        }),
{
    let before = reports.drop_last();
    let first = contents.drop_last();
    assert forall|i: int| 0 <= i < before.len() implies carries(
        #[trigger] before[i],
        first[i],
        true,
    ) by {
        assert(before[i] == reports[i]);
    }
    lemma_contents_are_buffered(before, first);
    contents.lemma_flatten_and_flatten_alt_are_equivalent();
    first.lemma_flatten_and_flatten_alt_are_equivalent();
    let report = reports[reports.len() - 1];
    let content = contents[contents.len() - 1];
    assert(carries(report, content, false));
    assert(report.subrange(5, 5 + report[1]) =~= content) by {
        assert forall|i: int| 0 <= i < content.len() implies report.subrange(5, 5 + report[1])[i]
            == content[i] by {
            assert(report[5 + i] == content[i]);
        }
    }
}

/// The reports that follow each other are taken as single ones are.
pub proof fn law_scanner_takes_each_report(
    device: &mut HidPos,
    report: &[u8],
    result: Option<HidData>,
    before: Seq<Seq<u8>>,
)
    requires
        old(device)@ == HidPosView::start().received_all(before).0,
        call_ensures(HidPos::receive, (device, report), result),
    ensures
        ({
            let given = HidPosView::start().received_all(before).1;
            let (after, all) = HidPosView::start().received_all(before.push(report@));
            &&& final(device)@ == after
            &&& match result {
                Some(data) => all == given.push(data@),
                None => all == given,
            }
        }),
{
    assert(before.push(report@).drop_last() =~= before);
}

/// Only a report of scanned data that tells of more than it holds is not taken.
pub proof fn law_taken_scans(report: &[u8], result: bool)
    requires
        call_ensures(HidPos::can_receive, (report,), result),
    ensures
        result <==> (is_scan(report@) ==> report@[1] <= 59),
{
}

} // verus!
