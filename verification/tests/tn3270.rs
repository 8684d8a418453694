use wopr::tn3270::ebcdic::Ebcdic;
use wopr::tn3270::screen::{Field, Screen};
use wopr::tn3270::stream::{
    attr_byte, dec_addr, enc_addr, parse_inbound, rc_to_pos, render_3270, ADDR, AID_ENTER,
    CMD_ERASE_WRITE, IC, SBA, SF,
};
use wopr::tn3270::telnet::{filter_telnet, DO, DONT, IAC, WILL, WONT};

#[test]
fn sba_addresses_row1_col0() {
    // pos = 1*80 + 0 = 80 -> high 6 bits = 1, low 6 bits = 80 & 0x3F = 16
    assert_eq!(enc_addr(rc_to_pos(1, 0)), [ADDR[1], ADDR[16]]);
    assert_eq!(enc_addr(0), [ADDR[0], ADDR[0]]);
}

#[test]
fn addr_roundtrip() {
    for pos in [0u16, 1, 79, 80, 959, 1000, 1919] {
        let e = enc_addr(pos);
        assert_eq!(dec_addr(e[0], e[1]), pos);
    }
}

#[test]
fn inbound_roundtrip() {
    let eb = Ebcdic::cp037();
    let out = render_3270(&Screen::logon(), &eb); // host writes the panel
    assert_eq!(out[0], CMD_ERASE_WRITE);
    assert!(out.contains(&SF) && out.contains(&IC));

    // terminal replies: Enter, cursor, one modified field (userid) = "IBMUSER"
    let userid_pos = rc_to_pos(2, 14);
    let mut rm = vec![AID_ENTER];
    rm.extend_from_slice(&enc_addr(rc_to_pos(2, 14)));
    rm.push(SBA);
    rm.extend_from_slice(&enc_addr(userid_pos));
    rm.extend(eb.to_bytes("IBMUSER"));

    let inbound = parse_inbound(&rm, &eb);
    assert_eq!(inbound.aid, AID_ENTER);
    assert_eq!(inbound.fields.len(), 1);
    assert_eq!(inbound.fields[0].0, userid_pos);
    assert_eq!(inbound.fields[0].1, "IBMUSER");
}

#[test]
fn telnet_strip() {
    let raw = [IAC, DO, 24, b'L', b' ', b'T', b'S', b'O', b'\r', b'\n'];
    let (data, reply) = filter_telnet(&raw);
    assert_eq!(data, b"L TSO\r\n");
    assert_eq!(reply, [IAC, WONT, 24]); // we refuse TERMINAL-TYPE in line mode
}

#[test]
fn telnet_escaped_iac_is_one_data_byte() {
    let raw = [b'A', IAC, IAC, b'B', IAC, WILL, 1, b'C'];
    let (data, reply) = filter_telnet(&raw);
    assert_eq!(data, vec![b'A', 255, b'B', b'C']);
    assert_eq!(reply, vec![IAC, DONT, 1]); // refuse the peer's WILL
    let (data, reply) = filter_telnet(&[b'X', IAC, DO]);
    assert_eq!(data, vec![b'X']);
    assert!(reply.is_empty());
}

#[test]
fn telnet_empty_input() {
    let (data, reply) = filter_telnet(&[]);
    assert!(data.is_empty() && reply.is_empty());
}

#[test]
fn address_table_matches_encoder() {
    for i in 0u16..64 {
        assert_eq!(enc_addr(i)[1], ADDR[i as usize]);
        assert_eq!(enc_addr(i * 64)[0], ADDR[i as usize]);
    }
    assert_eq!(ADDR[0], 0x40);
    assert_eq!(ADDR[63], 0x7F);
}

#[test]
fn every_position_roundtrips() {
    for pos in 0u16..4096 {
        let e = enc_addr(pos);
        assert_ne!(e[0], SBA);
        assert_ne!(e[1], SBA);
        assert_eq!(dec_addr(e[0], e[1]), pos);
    }
}

#[test]
fn rc_to_pos_formula() {
    assert_eq!(rc_to_pos(0, 0), 0);
    assert_eq!(rc_to_pos(23, 79), 1919);
    assert_eq!(rc_to_pos(2, 14), 174);
}

#[test]
fn attribute_bytes() {
    assert_eq!(attr_byte(false, false), 0xC0);
    assert_eq!(attr_byte(true, false), 0xE0);
    assert_eq!(attr_byte(false, true), 0xCC);
    assert_eq!(attr_byte(true, true), 0xEC);
}

#[test]
fn render_of_one_field_panel() {
    let eb = Ebcdic::cp037();
    let s = Screen { fields: vec![Field::new(0, 1, true, false, "A")], cursor: (0, 2) };
    let out = render_3270(&s, &eb);
    assert_eq!(
        out,
        vec![CMD_ERASE_WRITE, 0xC3, SBA, ADDR[0], ADDR[1], SF, 0xE0, 0xC1, IC, ADDR[0], ADDR[2]]
    );
}

#[test]
fn cp037_codec_roundtrips_latin1() {
    let eb = Ebcdic::cp037();
    assert_eq!(eb.to_bytes("A"), vec![0xC1]);
    assert_eq!(eb.to_bytes("0"), vec![0xF0]);
    assert_eq!(eb.to_bytes(" "), vec![0x40]);
    let s = "IBMUSER sys1 0123 !?";
    assert_eq!(eb.to_string(&eb.to_bytes(s)), s);
    let all: Vec<u8> = (0u16..256).map(|b| b as u8).collect();
    assert_eq!(eb.to_bytes(&eb.to_string(&all)), all);
}

#[test]
fn cp037_substitutes_outside_latin1() {
    let eb = Ebcdic::cp037();
    assert_eq!(eb.to_bytes("\u{20AC}"), vec![0x3F]);
}

#[test]
fn inbound_without_fields() {
    let eb = Ebcdic::cp037();
    let inbound = parse_inbound(&[AID_ENTER, 0x40, 0x40], &eb);
    assert_eq!(inbound.aid, AID_ENTER);
    assert_eq!(inbound.cursor, 0);
    assert!(inbound.fields.is_empty());
    let empty = parse_inbound(&[], &eb);
    assert_eq!(empty.aid, 0);
    assert!(empty.fields.is_empty());
}

#[test]
fn logon_panel_has_the_userid_field() {
    let s = Screen::logon();
    assert!(s.contains_text("USERID"));
    assert!(!s.contains_text("NO SUCH TEXT"));
}
