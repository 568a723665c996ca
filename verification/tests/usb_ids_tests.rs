use openusb::usb_ids::UsbIdDatabase;

const SAMPLE: &str = "# usb.ids sample\n\
#\tcomment line\n\
\n\
046d  Logitech, Inc.\n\
\tc52b  Unifying Receiver\n\
\t0892  C920 HD Pro Webcam\n\
\t\t0001  interface line, skipped\n\
0765  X-Rite, Inc.\r\n\
\t5020  i1Display Pro / ColorMunki Display\r\n\
zzzz  Not a vendor\n\
\t1234  Product of nothing\n\
C 00  (Defined at Interface level)\n\
\t01  Audio\n";

#[test]
fn parse_reads_vendors_and_products() {
    let db = UsbIdDatabase::parse(SAMPLE);
    assert_eq!(db.vendor_name(0x046d), Some("Logitech, Inc."));
    assert_eq!(db.product_name(0x046d, 0xc52b), Some("Unifying Receiver"));
    assert_eq!(db.product_name(0x046d, 0x0892), Some("C920 HD Pro Webcam"));
    assert_eq!(db.vendor_name(0x0765), Some("X-Rite, Inc."));
    assert_eq!(db.product_name(0x0765, 0x5020), Some("i1Display Pro / ColorMunki Display"));
}

#[test]
fn parse_skips_interfaces_unparsable_lines_and_classes() {
    let db = UsbIdDatabase::parse(SAMPLE);
    assert_eq!(db.product_name(0x046d, 0x0001), None);
    assert_eq!(db.product_name(0x0765, 0x1234), None);
    assert_eq!(db.vendor_name(0x0000), None);
    assert_eq!(db.product_name(0x0765, 0x0001), None);
    assert_eq!(db.product_name(0xffff, 0x0001), None);
}

#[test]
fn later_entries_win_and_last_vendor_is_kept() {
    let db = UsbIdDatabase::parse("1d6b  First\n\t0001  hub\n1d6b  Second\n\t0002  root\n");
    assert_eq!(db.vendor_name(0x1d6b), Some("Second"));
    assert_eq!(db.product_name(0x1d6b, 0x0001), None);
    assert_eq!(db.product_name(0x1d6b, 0x0002), Some("root"));
    let empty = UsbIdDatabase::parse("");
    assert_eq!(empty.vendor_name(0x1d6b), None);
}

#[test]
fn blank_and_comment_lines_change_nothing() {
    let plain = "046d  Logitech, Inc.\n\tc52b  Unifying Receiver\n0765  X-Rite\n\t5020  i1Display\n";
    let noisy = "# header\n\n046d  Logitech, Inc.\n# note\n\tc52b  Unifying Receiver\n\n\n0765  X-Rite\n#\n\t5020  i1Display\n# end\n";
    let a = UsbIdDatabase::parse(plain);
    let b = UsbIdDatabase::parse(noisy);
    for (v, p) in [(0x046d, 0xc52b), (0x0765, 0x5020), (0x046d, 0x5020), (0x1234, 0x0001)] {
        assert_eq!(a.vendor_name(v), b.vendor_name(v));
        assert_eq!(a.product_name(v, p), b.product_name(v, p));
    }
    assert_eq!(b.product_name(0x0765, 0x5020), Some("i1Display"));
}
