use kernel::uart::{input_full, output_empty, send_sequence, PortAddress, SerialPort};

#[test]
fn registers_follow_the_base() {
    let p = SerialPort::new(PortAddress::COM1);
    assert_eq!(
        [p.data, p.int_en, p.fifo_ctrl, p.line_ctrl, p.modem_ctrl, p.line_sts],
        [0x3F8, 0x3F9, 0x3FA, 0x3FB, 0x3FC, 0x3FD]
    );
    assert_eq!(SerialPort::new(PortAddress::COM2).data, 0x2F8);
    assert_eq!(PortAddress::COM3.base(), 0x3E8);
    assert_eq!(PortAddress::COM4.base(), 0x2E8);
}

#[test]
fn init_program() {
    let p = SerialPort::new(PortAddress::COM2);
    assert_eq!(
        p.init_sequence(),
        vec![
            (0x2F9, 0x00),
            (0x2FB, 0x80),
            (0x2F8, 0x03),
            (0x2F9, 0x00),
            (0x2FB, 0x03),
            (0x2FA, 0xC7),
            (0x2FC, 0x0B),
            (0x2F9, 0x01)
        ]
    );
}

#[test]
fn backspace_and_delete_erase() {
    assert_eq!(send_sequence(0x08), vec![0x08, b' ', 0x08]);
    assert_eq!(send_sequence(0x7F), vec![0x08, b' ', 0x08]);
    assert_eq!(send_sequence(b'k'), vec![b'k']);
    assert_eq!(send_sequence(b'\n'), vec![b'\n']);
}

#[test]
fn line_status_bits() {
    assert!(output_empty(0x20));
    assert!(output_empty(0x61));
    assert!(!output_empty(0x1F));
    assert!(input_full(0x01));
    assert!(!input_full(0xFE));
}
