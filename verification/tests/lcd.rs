use nzxt_ctl::lcd::{
    bulk_header, create_bucket_command, ensure_ok, hid_report, hid_step, rotate_for_device,
    startup_commands, switch_command, uevent_is_kraken, upload_steps, HidStep, LcdError, LcdSession,
    ReplyCheck, UploadAction,
};

// 2x2 frame, one distinct byte value per pixel (all four channels equal):
//   A B
//   C D
fn frame(px: [u8; 4]) -> Vec<u8> {
    px.iter().flat_map(|&v| [v; 4]).collect()
}

#[test]
fn orientation_zero_is_identity() {
    let f = frame([1, 2, 3, 4]);
    assert_eq!(rotate_for_device(&f, 2, 0), f);
}

#[test]
fn orientation_90_rotates_one_quarter_turn_clockwise() {
    assert_eq!(rotate_for_device(&frame([1, 2, 3, 4]), 2, 1), frame([3, 1, 4, 2]));
}

#[test]
fn orientation_180_flips_both_axes() {
    assert_eq!(rotate_for_device(&frame([1, 2, 3, 4]), 2, 2), frame([4, 3, 2, 1]));
}

#[test]
fn orientation_270_rotates_counter_clockwise() {
    assert_eq!(rotate_for_device(&frame([1, 2, 3, 4]), 2, 3), frame([2, 4, 1, 3]));
}

#[test]
fn orientation_is_taken_modulo_four() {
    assert_eq!(rotate_for_device(&frame([1, 2, 3, 4]), 2, 5), frame([3, 1, 4, 2]));
    assert_eq!(rotate_for_device(&frame([1, 2, 3, 4]), 2, 4), frame([1, 2, 3, 4]));
}

#[test]
fn rotation_keeps_channels_of_a_pixel_together() {
    let f: Vec<u8> = (0u8..16).collect();
    assert_eq!(
        rotate_for_device(&f, 2, 1),
        vec![8, 9, 10, 11, 0, 1, 2, 3, 12, 13, 14, 15, 4, 5, 6, 7]
    );
}

#[test]
fn reports_are_zero_padded_to_64_bytes() {
    let r = hid_report(&vec![0x30, 0x01]).unwrap();
    assert_eq!(r.len(), 64);
    assert_eq!(&r[..3], &[0x30, 0x01, 0x00]);
    assert!(matches!(hid_report(&vec![0u8; 65]), Err(LcdError::CommandTooLong)));
}

#[test]
fn hid_replies_are_matched_by_header() {
    let mut p = [0u8; 64];
    p[0] = 0x37;
    p[1] = 0x01;
    assert_eq!(hid_step(1, &p, [0x37, 0x01]), HidStep::Matched);
    assert_eq!(hid_step(1, &p, [0x39, 0x01]), HidStep::ReadAnother);
    assert_eq!(hid_step(200, &p, [0x39, 0x01]), HidStep::GiveUp);
}

#[test]
fn success_flag_is_byte_14() {
    let mut p = [0u8; 64];
    assert!(matches!(ensure_ok(&p, "device refused"), Err(LcdError::Refused { .. })));
    p[14] = 1;
    assert!(ensure_ok(&p, "device refused").is_ok());
    let e = ensure_ok(&[0u8; 64], "device rejected LCD mode-switch commit").unwrap_err();
    assert_eq!(e.message(), "device rejected LCD mode-switch commit");
}

#[test]
fn bucket_commands() {
    let c = create_bucket_command(1);
    assert_eq!(c.bytes, vec![0x32, 0x01, 1, 2, 0x41, 0x06, 0x41, 0x06, 0x01]);
    assert_eq!(c.expect, [0x33, 0x01]);
    let c = create_bucket_command(0);
    assert_eq!(c.bytes, vec![0x32, 0x01, 0, 1, 0, 0, 0x41, 0x06, 0x01]);
    let s = switch_command(1);
    assert_eq!(s.bytes, vec![0x38, 0x01, 0x04, 1]);
    let cs = startup_commands();
    assert_eq!(cs.len(), 17);
    assert_eq!(cs[0].bytes, vec![0x38, 0x01, 0x02, 0x00]);
    assert_eq!(cs[16].bytes, vec![0x32, 0x02, 15]);
}

#[test]
fn bulk_header_for_a_full_frame() {
    let h = bulk_header(640 * 640 * 4);
    assert_eq!(
        h,
        vec![
            0x12, 0xFA, 0x01, 0xE8, 0xAB, 0xCD, 0xEF, 0x98, 0x76, 0x54, 0x32, 0x10, 0x02, 0, 0, 0,
            0x00, 0x00, 0x19, 0x00
        ]
    );
}

#[test]
fn frames_alternate_between_the_two_buckets() {
    let mut s = LcdSession::new(640, 640, 3).unwrap();
    assert_eq!(s.frame_len, 640 * 640 * 4);
    assert_eq!(s.keepalive_bucket(), None);
    let t = s.begin_upload(640 * 640 * 4).unwrap();
    assert_eq!(t, 0);
    s.committed(t);
    let t = s.begin_upload(640 * 640 * 4).unwrap();
    assert_eq!(t, 1);
    s.committed(t);
    assert_eq!(s.keepalive_bucket(), Some(1));
    assert_eq!(s.begin_upload(640 * 640 * 4).unwrap(), 0);
}

#[test]
fn session_rejects_bad_frames() {
    match LcdSession::new(1024, 1024, 0) {
        Err(e) => assert_eq!(
            e.message(),
            "frame (4096KB) exceeds the bucket size (1601KB) - only the resolution this was captured against ((1024, 1024)) is supported for now"
        ),
        Ok(_) => panic!("frame should not fit"),
    }
    let s = LcdSession::new(64, 32, 0).unwrap();
    assert!(matches!(s.begin_upload(64 * 32 * 4), Err(LcdError::NotSquare { .. })));
    let e = s.begin_upload(10).unwrap_err();
    assert_eq!(e.message(), "frame size 10 does not match expected 8192 for (64, 32)");
}

#[test]
fn no_matching_response_message_prints_the_header_in_hex() {
    let e = LcdError::NoMatchingResponse { header: [0x39, 0x0a] };
    assert_eq!(
        e.message(),
        "no HID response matching [39, 0a] after 200 packets - is another process also talking to the device?"
    );
}

#[test]
fn uevent_identifies_the_kraken() {
    assert!(uevent_is_kraken("DRIVER=hid-generic\nHID_ID=0003:00001E71:0000300C\nHID_NAME=NZXT\n"));
    assert!(uevent_is_kraken("HID_ID=0003:00001e71:0000300c"));
    assert!(uevent_is_kraken("DRIVER=x\r\nHID_ID=0003:00001E71:0000300C\r\n"));
    assert!(!uevent_is_kraken("HID_ID=0003:00001E71:00002012\n"));
    assert!(!uevent_is_kraken("DRIVER=x\nHID_NAME=NZXT\n"));
    assert!(!uevent_is_kraken("HID_ID=0003:00001E71:0000300C\nHID_ID=0003:00001E71:0000300C"
        .replacen("300C", "2012", 1)
        .as_str()));
    assert!(!uevent_is_kraken(""));
}

#[test]
fn turning_back_by_the_complementary_turns_restores_the_frame() {
    let f: Vec<u8> = (0u8..36).collect();
    for k in 0u8..4 {
        let once = rotate_for_device(&f, 3, k);
        assert_eq!(rotate_for_device(&once, 3, (4 - k) % 4), f);
        let mut a: Vec<&[u8]> = once.chunks(4).collect();
        let mut b: Vec<&[u8]> = f.chunks(4).collect();
        a.sort();
        b.sort();
        assert_eq!(a, b);
    }
}

#[test]
fn upload_steps_come_in_protocol_order() {
    let steps = upload_steps(1);
    assert_eq!(steps.len(), 8);
    let sent = |i: usize| match &steps[i].action {
        UploadAction::Send(c, _) => c.bytes.clone(),
        _ => panic!("step {} sends nothing", i),
    };
    assert_eq!(sent(0), vec![0x32, 0x02, 1]);
    assert!(matches!(steps[0].action, UploadAction::Send(_, ReplyCheck::Ignore)));
    assert_eq!(steps[0].pause_after, None);
    assert_eq!(sent(1), vec![0x32, 0x01, 1, 2, 0x41, 0x06, 0x41, 0x06, 0x01]);
    assert!(matches!(
        steps[1].action,
        UploadAction::Send(_, ReplyCheck::Accept("device rejected bucket setup for LCD gauge"))
    ));
    assert_eq!(steps[1].pause_after, Some("bucket deleted+created"));
    assert_eq!(sent(2), vec![0x36, 0x03]);
    assert!(matches!(steps[2].action, UploadAction::Send(_, ReplyCheck::Answer)));
    assert_eq!(sent(3), vec![0x36, 0x01, 1]);
    assert!(matches!(
        steps[3].action,
        UploadAction::Send(_, ReplyCheck::Accept("device refused to start LCD data transfer"))
    ));
    assert!(matches!(steps[4].action, UploadAction::Frame));
    assert_eq!(steps[4].pause_after, Some("bulk data sent"));
    assert_eq!(sent(5), vec![0x36, 0x02]);
    assert_eq!(sent(6), vec![0x38, 0x01, 0x04, 1]);
    assert!(matches!(
        steps[6].action,
        UploadAction::Send(_, ReplyCheck::Accept("device rejected LCD mode-switch commit"))
    ));
    assert!(matches!(steps[7].action, UploadAction::Commit));
    assert_eq!(steps[7].pause_after, Some("switched to new bucket"));
}
