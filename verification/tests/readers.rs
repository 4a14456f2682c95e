use ecat::eeprom::{
    CategoryIter, CategoryReader, Found, RangeReader, RegisterReadState, StringReader,
};
use ecat::error::{Error, SubDeviceState};
use ecat::mbx::{caller_tag, retag, role, tag_for, CoeMailboxState, MbxWriteRead, ReadMbxState, WriteMbxState};
use ecat::request::{CoeRequest, Pdu, Request, SubIndex};
use ecat::sdo::{SdoKind, SdoValue};
use ecat::state_transition::{Transition, TransitionState};
use ecat::subdevice::Mailbox;
use ecat::wire::CategoryType;

const ADDRESS: u16 = 0x1000;

fn request(pdu: Pdu, index: u16, identifier: u8) -> Request {
    Request { pdu, index: Some(index), identifier: Some(identifier) }
}

/// Feeds a reader's register cycle up to the answer that carries the chunk.
fn through_cycle<F: FnMut(&[u8], &mut Vec<Request>) -> Result<bool, Error>>(mut update: F) {
    let mut out = Vec::new();
    assert_eq!(update(&[0; 6], &mut out), Ok(false));
    assert_eq!(out.last().unwrap().pdu, Pdu::WaitForEepromChunk { address: ADDRESS });
    assert_eq!(update(&[0x00, 0x80], &mut out), Ok(false));
    assert_eq!(out.last().unwrap().pdu, Pdu::WaitForEepromChunk { address: ADDRESS });
    assert_eq!(update(&[0x40, 0x00], &mut out), Ok(false));
    assert_eq!(out.last().unwrap().pdu, Pdu::ReadEepromData { address: ADDRESS, len: 8 });
    assert_eq!(out.len(), 3);
}

#[test]
fn register_cycle_polls_until_the_interface_is_free() {
    let mut cycle = RegisterReadState::RequestRead;
    let mut out = Vec::new();
    cycle.start(ADDRESS, 0x0040, 2, 7, &mut out);
    assert_eq!(out, vec![request(Pdu::ReadEepromChunk { address: ADDRESS, start: 0x0040 }, 2, 7)]);
    out.clear();
    assert_eq!(cycle.update(&[], ADDRESS, 2, 7, &mut out), Ok(false));
    assert_eq!(cycle, RegisterReadState::WaitForDevice);
    assert_eq!(out, vec![request(Pdu::WaitForEepromChunk { address: ADDRESS }, 2, 7)]);
    out.clear();
    assert_eq!(cycle.update(&[0x00, 0x80], ADDRESS, 2, 7, &mut out), Ok(false));
    assert_eq!(cycle, RegisterReadState::WaitForDevice);
    assert_eq!(out, vec![request(Pdu::WaitForEepromChunk { address: ADDRESS }, 2, 7)]);
    out.clear();
    assert_eq!(cycle.update(&[0x00], ADDRESS, 2, 7, &mut out), Err(Error::WireCodec));
    assert!(out.is_empty());
    assert_eq!(cycle.update(&[0x00, 0x00], ADDRESS, 2, 7, &mut out), Ok(false));
    assert_eq!(cycle, RegisterReadState::ReadData);
    assert_eq!(out, vec![request(Pdu::ReadEepromData { address: ADDRESS, len: 4 }, 2, 7)]);
    out.clear();
    assert_eq!(cycle.update(&[1, 2, 3, 4], ADDRESS, 2, 7, &mut out), Ok(true));
    assert!(out.is_empty());
}

#[test]
fn range_reader_collects_chunks() {
    let mut reader = RangeReader::<10>::new(0x0008, 10, [0; 10], 1);
    let mut out = Vec::new();
    assert_eq!(reader.start(ADDRESS, 0, &mut out), Ok(()));
    assert_eq!(out, vec![request(Pdu::ReadEepromChunk { address: ADDRESS, start: 0x0008 }, 0, 1)]);
    through_cycle(|data, out| reader.update(data, ADDRESS, 0, out));
    out.clear();
    assert_eq!(reader.update(&[1, 2, 3, 4, 5, 6, 7, 8], ADDRESS, 0, &mut out), Ok(false));
    assert_eq!(reader.offset, 8);
    assert_eq!(out, vec![request(Pdu::ReadEepromChunk { address: ADDRESS, start: 0x000c }, 0, 1)]);
    through_cycle(|data, out| reader.update(data, ADDRESS, 0, out));
    out.clear();
    assert_eq!(reader.update(&[9, 10, 11, 12, 13, 14, 15, 16], ADDRESS, 0, &mut out), Ok(true));
    assert!(out.is_empty());
    assert_eq!(reader.offset, 10);
    assert_eq!(reader.buffer, [1, 2, 3, 4, 5, 6, 7, 8, 9, 10]);
}

#[test]
fn range_reader_skips_a_byte_at_an_odd_offset() {
    let mut reader = RangeReader::<4>::new(0x0100, 4, [0; 4], 0);
    reader.offset = 1;
    let mut out = Vec::new();
    assert_eq!(reader.start(ADDRESS, 0, &mut out), Ok(()));
    assert_eq!(out[0].pdu, Pdu::ReadEepromChunk { address: ADDRESS, start: 0x0100 });
    through_cycle(|data, out| reader.update(data, ADDRESS, 0, out));
    out.clear();
    assert_eq!(reader.update(&[0xaa, 1, 2, 3, 4, 5, 6, 7], ADDRESS, 0, &mut out), Ok(true));
    assert_eq!(reader.buffer, [0, 1, 2, 3]);
    assert_eq!(reader.offset, 4);
}

#[test]
fn range_reader_refuses_an_address_beyond_the_eeprom() {
    let mut reader = RangeReader::<4>::new(0xffff, 4, [0; 4], 0);
    reader.offset = 2;
    let mut out = Vec::new();
    assert_eq!(reader.start(ADDRESS, 0, &mut out), Err(Error::WireCodec));
    assert!(out.is_empty());
}

fn category_header(kind: u16, words: u16) -> Vec<u8> {
    let mut header = Vec::new();
    header.extend_from_slice(&kind.to_le_bytes());
    header.extend_from_slice(&words.to_le_bytes());
    header.extend_from_slice(&[0; 4]);
    header
}

fn scanning(category: CategoryType) -> CategoryReader {
    let mut reader = CategoryReader::new(category, 0);
    reader.state = RegisterReadState::ReadData;
    reader
}

#[test]
fn category_scan_finds_its_category() {
    let mut reader = CategoryReader::new(CategoryType::SyncManager, 3);
    let mut out = Vec::new();
    reader.start(ADDRESS, 1, &mut out);
    assert_eq!(out, vec![request(Pdu::ReadEepromChunk { address: ADDRESS, start: 0x0040 }, 1, 3)]);
    through_cycle(|data, out| reader.update(data, ADDRESS, 1, out));
    out.clear();
    assert_eq!(reader.update(&category_header(30, 9), ADDRESS, 1, &mut out), Ok(false));
    assert_eq!(reader.addr, 0x004b);
    assert_eq!(out, vec![request(Pdu::ReadEepromChunk { address: ADDRESS, start: 0x004b }, 1, 3)]);
    through_cycle(|data, out| reader.update(data, ADDRESS, 1, out));
    out.clear();
    assert_eq!(reader.update(&category_header(41, 16), ADDRESS, 1, &mut out), Ok(true));
    assert_eq!(reader.found, Some(Found { start: 0x004d, odd: false, len: 32 }));
    assert!(out.is_empty());
}

#[test]
fn category_scan_ends_at_the_end_marker() {
    let mut reader = scanning(CategoryType::Fmmu);
    let mut out = Vec::new();
    assert_eq!(reader.update(&category_header(0xffff, 0), ADDRESS, 0, &mut out), Ok(true));
    assert_eq!(reader.found, None);
    assert!(out.is_empty());
}

#[test]
fn category_scan_gives_up_after_32_empty_categories() {
    let mut reader = scanning(CategoryType::Fmmu);
    let mut out = Vec::new();
    for _ in 0..31 {
        assert_eq!(reader.update(&category_header(1, 0), ADDRESS, 0, &mut out), Ok(false));
        reader.state = RegisterReadState::ReadData;
    }
    assert_eq!(reader.update(&category_header(1, 0), ADDRESS, 0, &mut out), Ok(true));
    assert_eq!(reader.found, None);
    assert_eq!(reader.addr, 0x0040 + 64);
}

#[test]
fn category_scan_counts_empty_categories_in_a_row() {
    let mut reader = scanning(CategoryType::Fmmu);
    let mut out = Vec::new();
    for _ in 0..20 {
        assert_eq!(reader.update(&category_header(1, 0), ADDRESS, 0, &mut out), Ok(false));
        reader.state = RegisterReadState::ReadData;
    }
    assert_eq!(reader.update(&category_header(1, 1), ADDRESS, 0, &mut out), Ok(false));
    assert_eq!(reader.empty_category_count, 0);
    reader.state = RegisterReadState::ReadData;
    for _ in 0..20 {
        assert_eq!(reader.update(&category_header(1, 0), ADDRESS, 0, &mut out), Ok(false));
        reader.state = RegisterReadState::ReadData;
    }
    assert_eq!(reader.empty_category_count, 20);
}

#[test]
fn category_scan_ends_where_the_address_space_does() {
    let mut reader = scanning(CategoryType::Fmmu);
    let mut out = Vec::new();
    assert_eq!(reader.update(&category_header(1, 0xfff0), ADDRESS, 0, &mut out), Ok(true));
    assert_eq!(reader.found, None);
    assert!(out.is_empty());
    let mut last = scanning(CategoryType::Fmmu);
    last.addr = 0xfffe;
    assert_eq!(last.update(&category_header(40, 1), ADDRESS, 0, &mut out), Ok(true));
    assert_eq!(last.found, None);
    let mut steps = 0u32;
    let mut walk = scanning(CategoryType::Fmmu);
    walk.addr = 0x0040;
    loop {
        steps += 1;
        if walk.update(&category_header(1, 1), ADDRESS, 0, &mut out).unwrap() {
            break;
        }
        walk.state = RegisterReadState::ReadData;
    }
    assert_eq!(walk.found, None);
    assert!(steps <= 0x10000 / 3 + 1);
}

#[test]
fn category_scan_needs_a_whole_header() {
    let mut reader = scanning(CategoryType::Fmmu);
    let mut out = Vec::new();
    assert_eq!(reader.update(&[40, 0, 1], ADDRESS, 0, &mut out), Err(Error::WireCodec));
    assert_eq!(reader.addr, 0x0040);
    let mut huge = scanning(CategoryType::Fmmu);
    assert_eq!(huge.update(&category_header(40, 0x8000), ADDRESS, 0, &mut out), Err(Error::WireCodec));
}

#[test]
fn category_walk_reports_a_missing_category() {
    let mut walk = CategoryIter::<8>::new(CategoryType::SyncManager, 0);
    let mut out = Vec::new();
    assert_eq!(walk.start(ADDRESS, 0, &mut out), Ok(()));
    through_cycle(|data, out| walk.update(data, ADDRESS, 0, out).map(|r| r.is_some()));
    assert_eq!(walk.update(&category_header(0xffff, 0), ADDRESS, 0, &mut out), Ok(Some(false)));
    assert!(walk.buffer().is_none());
}

#[test]
fn string_walk_finds_the_second_string() {
    let mut walk = StringReader::new(2, 0x0050, 2);
    let mut out = Vec::new();
    assert_eq!(walk.start(ADDRESS, 0, &mut out), Ok(()));
    assert_eq!(out[0].pdu, Pdu::ReadEepromChunk { address: ADDRESS, start: 0x0050 });
    through_cycle(|data, out| walk.update(data, ADDRESS, 0, out));
    out.clear();
    assert_eq!(walk.update(&[2, 3, b'a', b'b', b'c', 2, b'x', b'y'], ADDRESS, 0, &mut out), Ok(false));
    assert_eq!(walk.offset, 5);
    assert_eq!(out, vec![request(Pdu::ReadEepromChunk { address: ADDRESS, start: 0x0052 }, 0, 2)]);
    through_cycle(|data, out| walk.update(data, ADDRESS, 0, out));
    out.clear();
    assert_eq!(walk.update(&[b'c', 2, b'x', b'y', 0, 0, 0, 0], ADDRESS, 0, &mut out), Ok(true));
    assert_eq!(walk.found, Some(Found { start: 0x0053, odd: false, len: 2 }));
}

#[test]
fn string_walk_finds_a_string_in_the_middle_of_a_word() {
    let mut walk = StringReader::new(2, 0x0050, 2);
    walk.state = RegisterReadState::ReadData;
    let mut out = Vec::new();
    assert_eq!(walk.update(&[2, 2, b'a', b'b', 3, b'x', b'y', b'z'], ADDRESS, 0, &mut out), Ok(false));
    assert_eq!(walk.offset, 4);
    assert_eq!(out, vec![request(Pdu::ReadEepromChunk { address: ADDRESS, start: 0x0052 }, 0, 2)]);
    through_cycle(|data, out| walk.update(data, ADDRESS, 0, out));
    out.clear();
    assert_eq!(walk.update(&[3, b'x', b'y', b'z', 0, 0, 0, 0], ADDRESS, 0, &mut out), Ok(true));
    let found = walk.found.unwrap();
    assert_eq!(found, Found { start: 0x0052, odd: true, len: 3 });
    assert!(out.is_empty());

    let mut reader = RangeReader::<64>::over(found, [0; 64], 2);
    assert_eq!(reader.start(ADDRESS, 0, &mut out), Ok(()));
    assert_eq!(out, vec![request(Pdu::ReadEepromChunk { address: ADDRESS, start: 0x0052 }, 0, 2)]);
    through_cycle(|data, out| reader.update(data, ADDRESS, 0, out));
    out.clear();
    assert_eq!(reader.update(&[3, b'x', b'y', b'z', 0, 0, 0, 0], ADDRESS, 0, &mut out), Ok(true));
    assert_eq!(&reader.buffer[..3], b"xyz");
    assert_eq!(reader.offset, 3);
}

#[test]
fn range_reader_over_an_odd_start_goes_on_at_the_word_that_follows() {
    let found = Found { start: 0x0060, odd: true, len: 10 };
    let mut reader = RangeReader::<16>::over(found, [0; 16], 1);
    let mut out = Vec::new();
    assert_eq!(reader.start(ADDRESS, 0, &mut out), Ok(()));
    assert_eq!(out, vec![request(Pdu::ReadEepromChunk { address: ADDRESS, start: 0x0060 }, 0, 1)]);
    through_cycle(|data, out| reader.update(data, ADDRESS, 0, out));
    out.clear();
    assert_eq!(reader.update(&[9, 1, 2, 3, 4, 5, 6, 7], ADDRESS, 0, &mut out), Ok(false));
    assert_eq!(reader.offset, 7);
    assert_eq!(out, vec![request(Pdu::ReadEepromChunk { address: ADDRESS, start: 0x0064 }, 0, 1)]);
    through_cycle(|data, out| reader.update(data, ADDRESS, 0, out));
    out.clear();
    assert_eq!(reader.update(&[8, 9, 10, 11, 12, 13, 14, 15], ADDRESS, 0, &mut out), Ok(true));
    assert_eq!(&reader.buffer[..10], &[1, 2, 3, 4, 5, 6, 7, 8, 9, 10]);
    assert_eq!(reader.offset, 10);
}

#[test]
fn string_index_zero_stands_for_no_string() {
    let mut walk = StringReader::new(0, 0x0050, 2);
    walk.state = RegisterReadState::ReadData;
    let mut out = Vec::new();
    assert_eq!(walk.update(&[3, 1, b'a'], ADDRESS, 0, &mut out), Ok(true));
    assert_eq!(walk.found, None);
    let mut beyond = StringReader::new(4, 0x0050, 2);
    beyond.state = RegisterReadState::ReadData;
    assert_eq!(beyond.update(&[3, 1, b'a'], ADDRESS, 0, &mut out), Ok(true));
    assert_eq!(beyond.found, None);
    let mut first = StringReader::new(1, 0x0050, 2);
    first.state = RegisterReadState::ReadData;
    assert_eq!(first.update(&[3, 4, b'n', b'a', b'm', b'e'], ADDRESS, 0, &mut out), Ok(true));
    assert_eq!(first.found, Some(Found { start: 0x0051, odd: false, len: 4 }));
    let mut short = StringReader::new(1, 0x0050, 2);
    short.state = RegisterReadState::ReadData;
    assert_eq!(short.update(&[3], ADDRESS, 0, &mut out), Err(Error::WireCodec));
    assert!(out.is_empty());
}

#[test]
fn transition_requests_then_polls() {
    let mut transition = Transition::new(SubDeviceState::PreOp);
    let mut out = Vec::new();
    transition.start(ADDRESS, 3, &mut out);
    assert_eq!(
        out,
        vec![Request {
            pdu: Pdu::RequestState { address: ADDRESS, state: SubDeviceState::PreOp },
            index: Some(3),
            identifier: None,
        }]
    );
    out.clear();
    let poll = Request {
        pdu: Pdu::WaitState { address: ADDRESS, state: SubDeviceState::PreOp },
        index: Some(3),
        identifier: None,
    };
    assert_eq!(transition.update(&[0x02, 0], ADDRESS, 3, &mut out), Ok(false));
    assert_eq!(transition.state, TransitionState::WaitForAck);
    assert_eq!(out, vec![poll]);
    assert_eq!(transition.update(&[0x01, 0], ADDRESS, 3, &mut out), Ok(false));
    assert_eq!(out, vec![poll, poll]);
    assert_eq!(transition.update(&[0x02, 0], ADDRESS, 3, &mut out), Ok(true));
    assert_eq!(out.len(), 2);
    assert_eq!(transition.update(&[0x02], ADDRESS, 3, &mut out), Err(Error::WireCodec));
}

#[test]
fn transition_fails_when_the_device_reports_an_error() {
    let mut transition = Transition::new(SubDeviceState::SafeOp);
    let mut out = Vec::new();
    assert_eq!(
        transition.update(&[0x12, 0], ADDRESS, 0, &mut out),
        Err(Error::StateTransition { target: SubDeviceState::SafeOp, actual: SubDeviceState::PreOp })
    );
    assert_eq!(transition.state, TransitionState::Transition);
    assert!(out.is_empty());
}

#[test]
fn tags_carry_the_caller_above_the_role() {
    assert_eq!(tag_for(1, Some(1)), 0b0101);
    assert_eq!(tag_for(2, Some(2)), 0b1010);
    assert_eq!(tag_for(2, None), 2);
    assert_eq!(role(0b0110), 2);
    assert_eq!(caller_tag(0b0110), 1);
    assert_eq!(retag(1, 0b0110), 0b0101);
    assert_eq!(retag(2, 0b1111_0101), 0b1111_0110);
}

fn mailboxes() -> (Mailbox, Mailbox) {
    (
        Mailbox { address: 0x1000, len: 0x80, sync_manager: 0 },
        Mailbox { address: 0x1080, len: 0x80, sync_manager: 1 },
    )
}

#[test]
fn a_stale_reply_is_flushed_before_a_service_is_written() {
    let (write_mbx, read_mbx) = mailboxes();
    let mut rest = CoeMailboxState::new();
    let mut out = Vec::new();
    rest.start(&write_mbx, &read_mbx, ADDRESS, Some(1), 0, &mut out);
    assert_eq!(
        out,
        vec![
            request(Pdu::MailboxStatus { address: ADDRESS, sync_manager: 0 }, 0, 0b0101),
            request(Pdu::MailboxStatus { address: ADDRESS, sync_manager: 1 }, 0, 0b0110),
        ]
    );
    out.clear();
    // The read mailbox holds something: it is read blindly.
    assert_eq!(rest.update(&[0x08], &write_mbx, &read_mbx, ADDRESS, Some(0b0110), 0, &mut out), Ok(false));
    assert_eq!(rest.rx, ReadMbxState::Flush);
    assert_eq!(out, vec![request(Pdu::Read { address: ADDRESS, start: 0x1080, len: 0x80 }, 0, 0b0110)]);
    out.clear();
    // The write mailbox is still full: it is polled again.
    assert_eq!(rest.update(&[0x08], &write_mbx, &read_mbx, ADDRESS, Some(0b0101), 0, &mut out), Ok(false));
    assert_eq!(out, vec![request(Pdu::MailboxStatus { address: ADDRESS, sync_manager: 0 }, 0, 0b0101)]);
    out.clear();
    assert_eq!(rest.update(&[0x00], &write_mbx, &read_mbx, ADDRESS, Some(0b0101), 0, &mut out), Ok(false));
    assert_eq!(rest.tx, WriteMbxState::Ready);
    assert!(out.is_empty());
    // The blind read is answered: the status is polled again.
    assert_eq!(rest.update(&[0; 8], &write_mbx, &read_mbx, ADDRESS, Some(0b0110), 0, &mut out), Ok(false));
    assert_eq!(rest.rx, ReadMbxState::Full);
    assert_eq!(out, vec![request(Pdu::MailboxStatus { address: ADDRESS, sync_manager: 1 }, 0, 0b0110)]);
    out.clear();
    assert_eq!(rest.update(&[0x00], &write_mbx, &read_mbx, ADDRESS, Some(0b0110), 0, &mut out), Ok(true));
    assert_eq!(rest.rx, ReadMbxState::Ready);
    assert_eq!(rest.update(&[0x00], &write_mbx, &read_mbx, ADDRESS, Some(0b0111), 0, &mut out), Err(Error::WireCodec));
    assert_eq!(rest.update(&[0x00], &write_mbx, &read_mbx, ADDRESS, None, 0, &mut out), Err(Error::WireCodec));
}

#[test]
fn a_service_is_written_once_both_mailboxes_rest() {
    let (write_mbx, read_mbx) = mailboxes();
    let service = CoeRequest {
        download: true,
        counter: 3,
        index: 0x1a00,
        sub_index: SubIndex::Index(0),
        data: [0; 4],
        len: 1,
    };
    let mut exchange = MbxWriteRead::new(service);
    let mut out = Vec::new();
    exchange.start(&write_mbx, &read_mbx, ADDRESS, Some(2), 4, &mut out);
    assert_eq!(out.len(), 2);
    out.clear();
    assert_eq!(exchange.update(&[0], &write_mbx, &read_mbx, ADDRESS, Some(0b1001), 4, &mut out), Ok(None));
    assert!(out.is_empty());
    assert_eq!(exchange.update(&[0], &write_mbx, &read_mbx, ADDRESS, Some(0b1010), 4, &mut out), Ok(None));
    assert_eq!(
        out,
        vec![
            request(Pdu::MailboxStatus { address: ADDRESS, sync_manager: 1 }, 4, 0b1001),
            request(
                Pdu::WriteMailbox { address: ADDRESS, start: 0x1000, len: 0x80, service },
                4,
                0b1010
            ),
        ]
    );
    out.clear();
    // The write is acknowledged; the reply is polled for until it is there.
    assert_eq!(exchange.update(&[], &write_mbx, &read_mbx, ADDRESS, Some(0b1010), 4, &mut out), Ok(None));
    assert_eq!(exchange.update(&[0], &write_mbx, &read_mbx, ADDRESS, Some(0b1001), 4, &mut out), Ok(None));
    assert_eq!(out, vec![request(Pdu::MailboxStatus { address: ADDRESS, sync_manager: 1 }, 4, 0b1001)]);
    out.clear();
    assert_eq!(exchange.update(&[0x08], &write_mbx, &read_mbx, ADDRESS, Some(0b1001), 4, &mut out), Ok(None));
    assert_eq!(out, vec![request(Pdu::Read { address: ADDRESS, start: 0x1080, len: 0x80 }, 4, 0b1001)]);
    out.clear();
    let reply = [0x0a, 0, 0, 0, 0, 0x33, 0x00, 0x30, 0x60, 0x00, 0x1a, 0x00, 0, 0, 0, 0];
    let headers = exchange
        .update(&reply, &write_mbx, &read_mbx, ADDRESS, Some(0b1001), 4, &mut out)
        .unwrap()
        .unwrap();
    assert_eq!(headers.length, 10);
    assert!(!headers.expedited);
    let mut aborted = reply;
    aborted[8] = 0x80;
    assert_eq!(
        exchange.update(&aborted, &write_mbx, &read_mbx, ADDRESS, Some(0b1001), 4, &mut out),
        Err(Error::WireCodec)
    );
}

#[test]
fn an_upload_hands_out_the_place_of_its_data() {
    let (write_mbx, read_mbx) = mailboxes();
    let mut read = ecat::SdoRead::new(2, 0x6041, SubIndex::Index(0));
    assert!(!read.finished());
    let mut out = Vec::new();
    read.start(&write_mbx, &read_mbx, ADDRESS, None, 0, &mut out);
    assert_eq!(
        out,
        vec![
            request(Pdu::MailboxStatus { address: ADDRESS, sync_manager: 0 }, 0, 1),
            request(Pdu::MailboxStatus { address: ADDRESS, sync_manager: 1 }, 0, 2),
        ]
    );
    out.clear();
    assert_eq!(read.update(&[0], &write_mbx, &read_mbx, ADDRESS, Some(1), 0, &mut out), Ok(None));
    assert_eq!(read.update(&[0], &write_mbx, &read_mbx, ADDRESS, Some(2), 0, &mut out), Ok(None));
    match out[1].pdu {
        Pdu::WriteMailbox { service, .. } => {
            assert!(!service.download);
            assert_eq!(service.counter, 2);
            assert_eq!(service.index, 0x6041);
        },
        _ => panic!("no service was written"),
    }
    out.clear();
    assert_eq!(read.update(&[], &write_mbx, &read_mbx, ADDRESS, Some(2), 0, &mut out), Ok(None));
    assert_eq!(read.update(&[0x08], &write_mbx, &read_mbx, ADDRESS, Some(1), 0, &mut out), Ok(None));
    let reply = [0x0a, 0, 0, 0, 0, 0x23, 0x00, 0x30, 0x4b, 0x41, 0x60, 0x00, 0x37, 0x02, 0, 0];
    let mut raw = read;
    let headers = raw
        .update_raw(&reply, &write_mbx, &read_mbx, ADDRESS, Some(1), 0, &mut out)
        .unwrap()
        .unwrap();
    assert!(headers.expedited);
    assert_eq!(headers.size, 2);
    assert!(!raw.finished());
    assert_eq!(
        read.update(&reply, &write_mbx, &read_mbx, ADDRESS, Some(1), 0, &mut out),
        Ok(Some((12, 2)))
    );
    assert!(read.finished());
    assert_eq!(
        ecat::sdo::SdoValue::unpack(&reply[12..14], 2),
        Some(ecat::sdo::SdoValue::U16(0x0237))
    );
}

#[test]
fn an_upload_hands_out_the_value_of_the_kind_asked_for() {
    let (write_mbx, read_mbx) = mailboxes();
    let mut read = ecat::SdoRead::new(2, 0x6077, SubIndex::Index(0));
    let mut out = Vec::new();
    read.start(&write_mbx, &read_mbx, ADDRESS, None, 0, &mut out);
    let kind = SdoKind::I16;
    assert_eq!(read.update_value(kind, &[0], &write_mbx, &read_mbx, ADDRESS, Some(1), 0, &mut out), Ok(None));
    assert_eq!(read.update_value(kind, &[0], &write_mbx, &read_mbx, ADDRESS, Some(2), 0, &mut out), Ok(None));
    assert_eq!(read.update_value(kind, &[], &write_mbx, &read_mbx, ADDRESS, Some(2), 0, &mut out), Ok(None));
    assert_eq!(read.update_value(kind, &[0x08], &write_mbx, &read_mbx, ADDRESS, Some(1), 0, &mut out), Ok(None));
    out.clear();
    let reply = [0x0a, 0, 0, 0, 0, 0x23, 0x00, 0x30, 0x4b, 0x77, 0x60, 0x00, 0x9c, 0xff, 0, 0];
    let waiting = read;
    assert_eq!(
        read.update_value(SdoKind::I32, &reply, &write_mbx, &read_mbx, ADDRESS, Some(1), 0, &mut out),
        Err(Error::WireCodec)
    );
    assert_eq!(read, waiting);
    assert!(!read.finished());
    assert_eq!(
        read.update_value(kind, &reply, &write_mbx, &read_mbx, ADDRESS, Some(1), 0, &mut out),
        Ok(Some(SdoValue::I16(-100)))
    );
    assert!(read.finished());
    let mut unsigned = waiting;
    assert_eq!(
        unsigned.update_value(SdoKind::U16, &reply, &write_mbx, &read_mbx, ADDRESS, Some(1), 0, &mut out),
        Ok(Some(SdoValue::U16(0xff9c)))
    );
    assert!(out.is_empty());
}
