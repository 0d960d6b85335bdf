//! The two-pass symbol table: label definitions from every section plus
//! the built-in special-function-register names.

use vstd::prelude::*;
use vstd::assert_seqs_equal;
use crate::instruction::table_view;
use crate::section::{Section, SectionView, sections_view, spec_label_entries};

verus! {

/// One group of the built-in register table.
pub open spec fn sfr_ports_and_timers() -> Seq<(Seq<char>, u16)> {
    seq![
        ("P0"@, 0x80u16),
        ("P1"@, 0x90u16),
        ("P2"@, 0xA0u16),
        ("P3"@, 0xB0u16),
        ("PSW"@, 0xD0u16),
        ("ACC"@, 0xE0u16),
        ("B"@, 0xF0u16),
        ("SP"@, 0x81u16),
        ("DPL"@, 0x82u16),
        ("DPH"@, 0x83u16),
        ("PCON"@, 0x87u16),
        ("TCON"@, 0x88u16),
        ("TMOD"@, 0x89u16),
        ("TL0"@, 0x8Au16),
        ("TL1"@, 0x8Bu16),
        ("TH0"@, 0x8Cu16),
    ]
}

fn push_sfr_ports_and_timers(table: &mut Vec<(String, u16)>)
    ensures
        table_view(final(table)@) == table_view(old(table)@) + sfr_ports_and_timers(),
{
    let ghost base = table@;
    table.push(("P0".to_owned(), 0x80));
    table.push(("P1".to_owned(), 0x90));
    table.push(("P2".to_owned(), 0xA0));
    table.push(("P3".to_owned(), 0xB0));
    table.push(("PSW".to_owned(), 0xD0));
    table.push(("ACC".to_owned(), 0xE0));
    table.push(("B".to_owned(), 0xF0));
    table.push(("SP".to_owned(), 0x81));
    table.push(("DPL".to_owned(), 0x82));
    table.push(("DPH".to_owned(), 0x83));
    table.push(("PCON".to_owned(), 0x87));
    table.push(("TCON".to_owned(), 0x88));
    table.push(("TMOD".to_owned(), 0x89));
    table.push(("TL0".to_owned(), 0x8A));
    table.push(("TL1".to_owned(), 0x8B));
    table.push(("TH0".to_owned(), 0x8C));
    proof {
        assert(table_view(table@) =~= table_view(base) + sfr_ports_and_timers());
    }
}

/// One group of the built-in register table.
pub open spec fn sfr_serial_and_capture() -> Seq<(Seq<char>, u16)> {
    seq![
        ("TH1"@, 0x8Du16),
        ("IEN0"@, 0xA8u16),
        ("IP0"@, 0xB8u16),
        ("SCON"@, 0x98u16),
        ("SBUF"@, 0x99u16),
        ("AUXR1"@, 0xA2u16),
        ("SADDR"@, 0xA9u16),
        ("SADEN"@, 0xB9u16),
        ("TL2"@, 0xCCu16),
        ("TH2"@, 0xCDu16),
        ("BRGR0"@, 0xBEu16),
        ("BRGR1"@, 0xBFu16),
        ("BRGCON"@, 0xBDu16),
        ("CCCRA"@, 0xEAu16),
        ("CCCRB"@, 0xEBu16),
        ("CCCRC"@, 0xECu16),
    ]
}

fn push_sfr_serial_and_capture(table: &mut Vec<(String, u16)>)
    ensures
        table_view(final(table)@) == table_view(old(table)@) + sfr_serial_and_capture(),
{
    let ghost base = table@;
    table.push(("TH1".to_owned(), 0x8D));
    table.push(("IEN0".to_owned(), 0xA8));
    table.push(("IP0".to_owned(), 0xB8));
    table.push(("SCON".to_owned(), 0x98));
    table.push(("SBUF".to_owned(), 0x99));
    table.push(("AUXR1".to_owned(), 0xA2));
    table.push(("SADDR".to_owned(), 0xA9));
    table.push(("SADEN".to_owned(), 0xB9));
    table.push(("TL2".to_owned(), 0xCC));
    table.push(("TH2".to_owned(), 0xCD));
    table.push(("BRGR0".to_owned(), 0xBE));
    table.push(("BRGR1".to_owned(), 0xBF));
    table.push(("BRGCON".to_owned(), 0xBD));
    table.push(("CCCRA".to_owned(), 0xEA));
    table.push(("CCCRB".to_owned(), 0xEB));
    table.push(("CCCRC".to_owned(), 0xEC));
    proof {
        assert(table_view(table@) =~= table_view(base) + sfr_serial_and_capture());
    }
}

/// One group of the built-in register table.
pub open spec fn sfr_compare_and_i2c() -> Seq<(Seq<char>, u16)> {
    seq![
        ("CCCRD"@, 0xEDu16),
        ("CMP1"@, 0xACu16),
        ("CMP2"@, 0xADu16),
        ("DEECON"@, 0xF1u16),
        ("DEEDAT"@, 0xF2u16),
        ("DEEADR"@, 0xF3u16),
        ("DIVM"@, 0x95u16),
        ("I2ADR"@, 0xDBu16),
        ("I2CON"@, 0xD8u16),
        ("I2DAT"@, 0xDAu16),
        ("I2SCLH"@, 0xDDu16),
        ("I2SCLL"@, 0xDCu16),
        ("I2STAT"@, 0xD9u16),
        ("ICRAH"@, 0xABu16),
        ("ICRAL"@, 0xAAu16),
        ("ICRBH"@, 0xAFu16),
    ]
}

fn push_sfr_compare_and_i2c(table: &mut Vec<(String, u16)>)
    ensures
        table_view(final(table)@) == table_view(old(table)@) + sfr_compare_and_i2c(),
{
    let ghost base = table@;
    table.push(("CCCRD".to_owned(), 0xED));
    table.push(("CMP1".to_owned(), 0xAC));
    table.push(("CMP2".to_owned(), 0xAD));
    table.push(("DEECON".to_owned(), 0xF1));
    table.push(("DEEDAT".to_owned(), 0xF2));
    table.push(("DEEADR".to_owned(), 0xF3));
    table.push(("DIVM".to_owned(), 0x95));
    table.push(("I2ADR".to_owned(), 0xDB));
    table.push(("I2CON".to_owned(), 0xD8));
    table.push(("I2DAT".to_owned(), 0xDA));
    table.push(("I2SCLH".to_owned(), 0xDD));
    table.push(("I2SCLL".to_owned(), 0xDC));
    table.push(("I2STAT".to_owned(), 0xD9));
    table.push(("ICRAH".to_owned(), 0xAB));
    table.push(("ICRAL".to_owned(), 0xAA));
    table.push(("ICRBH".to_owned(), 0xAF));
    proof {
        assert(table_view(table@) =~= table_view(base) + sfr_compare_and_i2c());
    }
}

/// One group of the built-in register table.
pub open spec fn sfr_interrupts_and_keys() -> Seq<(Seq<char>, u16)> {
    seq![
        ("ICRBL"@, 0xAEu16),
        ("IEN1"@, 0xE8u16),
        ("IP1"@, 0xF8u16),
        ("IP1H"@, 0xF7u16),
        ("KBCON"@, 0x94u16),
        ("KBMASK"@, 0x86u16),
        ("KBPATN"@, 0x93u16),
        ("OCRAH"@, 0xEFu16),
        ("OCRAL"@, 0xEEu16),
        ("OCRBH"@, 0xFBu16),
        ("OCRBL"@, 0xFAu16),
        ("OCRCH"@, 0xFDu16),
        ("OCRCL"@, 0xFCu16),
        ("OCRDH"@, 0xFFu16),
        ("OCRDL"@, 0xFEu16),
        ("P0M1"@, 0x84u16),
    ]
}

fn push_sfr_interrupts_and_keys(table: &mut Vec<(String, u16)>)
    ensures
        table_view(final(table)@) == table_view(old(table)@) + sfr_interrupts_and_keys(),
{
    let ghost base = table@;
    table.push(("ICRBL".to_owned(), 0xAE));
    table.push(("IEN1".to_owned(), 0xE8));
    table.push(("IP1".to_owned(), 0xF8));
    table.push(("IP1H".to_owned(), 0xF7));
    table.push(("KBCON".to_owned(), 0x94));
    table.push(("KBMASK".to_owned(), 0x86));
    table.push(("KBPATN".to_owned(), 0x93));
    table.push(("OCRAH".to_owned(), 0xEF));
    table.push(("OCRAL".to_owned(), 0xEE));
    table.push(("OCRBH".to_owned(), 0xFB));
    table.push(("OCRBL".to_owned(), 0xFA));
    table.push(("OCRCH".to_owned(), 0xFD));
    table.push(("OCRCL".to_owned(), 0xFC));
    table.push(("OCRDH".to_owned(), 0xFF));
    table.push(("OCRDL".to_owned(), 0xFE));
    table.push(("P0M1".to_owned(), 0x84));
    proof {
        assert(table_view(table@) =~= table_view(base) + sfr_interrupts_and_keys());
    }
}

/// One group of the built-in register table.
pub open spec fn sfr_output_compare() -> Seq<(Seq<char>, u16)> {
    seq![
        ("P0M2"@, 0x85u16),
        ("P1M1"@, 0x91u16),
        ("P1M2"@, 0x92u16),
        ("P2M1"@, 0xA4u16),
        ("P2M2"@, 0xA5u16),
        ("P3M1"@, 0xB1u16),
        ("P3M2"@, 0xB2u16),
        ("PCONA"@, 0xB5u16),
        ("PT0AD"@, 0xF6u16),
        ("RSTSRC"@, 0xDFu16),
        ("RTCCON"@, 0xD1u16),
        ("RTCH"@, 0xD2u16),
        ("RTCL"@, 0xD3u16),
        ("SSTAT"@, 0xBAu16),
        ("SPCTL"@, 0xE2u16),
        ("SPSTAT"@, 0xE1u16),
    ]
}

fn push_sfr_output_compare(table: &mut Vec<(String, u16)>)
    ensures
        table_view(final(table)@) == table_view(old(table)@) + sfr_output_compare(),
{
    let ghost base = table@;
    table.push(("P0M2".to_owned(), 0x85));
    table.push(("P1M1".to_owned(), 0x91));
    table.push(("P1M2".to_owned(), 0x92));
    table.push(("P2M1".to_owned(), 0xA4));
    table.push(("P2M2".to_owned(), 0xA5));
    table.push(("P3M1".to_owned(), 0xB1));
    table.push(("P3M2".to_owned(), 0xB2));
    table.push(("PCONA".to_owned(), 0xB5));
    table.push(("PT0AD".to_owned(), 0xF6));
    table.push(("RSTSRC".to_owned(), 0xDF));
    table.push(("RTCCON".to_owned(), 0xD1));
    table.push(("RTCH".to_owned(), 0xD2));
    table.push(("RTCL".to_owned(), 0xD3));
    table.push(("SSTAT".to_owned(), 0xBA));
    table.push(("SPCTL".to_owned(), 0xE2));
    table.push(("SPSTAT".to_owned(), 0xE1));
    proof {
        assert(table_view(table@) =~= table_view(base) + sfr_output_compare());
    }
}

/// One group of the built-in register table.
pub open spec fn sfr_timer2_and_watchdog() -> Seq<(Seq<char>, u16)> {
    seq![
        ("SPDAT"@, 0xE3u16),
        ("TAMOD"@, 0x8Fu16),
        ("TCR20"@, 0xC8u16),
        ("TCR21"@, 0xF9u16),
        ("TICR2"@, 0xC9u16),
        ("TIFR2"@, 0xE9u16),
        ("TISE2"@, 0xDEu16),
        ("TOR2H"@, 0xCFu16),
        ("TOR2L"@, 0xCEu16),
        ("TPCR2H"@, 0xCBu16),
        ("TPCR2L"@, 0xCAu16),
        ("TRIM"@, 0x96u16),
        ("WDCON"@, 0xA7u16),
        ("WDL"@, 0xC1u16),
        ("WFEED1"@, 0xC2u16),
        ("WFEED2"@, 0xC3u16),
    ]
}

fn push_sfr_timer2_and_watchdog(table: &mut Vec<(String, u16)>)
    ensures
        table_view(final(table)@) == table_view(old(table)@) + sfr_timer2_and_watchdog(),
{
    let ghost base = table@;
    table.push(("SPDAT".to_owned(), 0xE3));
    table.push(("TAMOD".to_owned(), 0x8F));
    table.push(("TCR20".to_owned(), 0xC8));
    table.push(("TCR21".to_owned(), 0xF9));
    table.push(("TICR2".to_owned(), 0xC9));
    table.push(("TIFR2".to_owned(), 0xE9));
    table.push(("TISE2".to_owned(), 0xDE));
    table.push(("TOR2H".to_owned(), 0xCF));
    table.push(("TOR2L".to_owned(), 0xCE));
    table.push(("TPCR2H".to_owned(), 0xCB));
    table.push(("TPCR2L".to_owned(), 0xCA));
    table.push(("TRIM".to_owned(), 0x96));
    table.push(("WDCON".to_owned(), 0xA7));
    table.push(("WDL".to_owned(), 0xC1));
    table.push(("WFEED1".to_owned(), 0xC2));
    table.push(("WFEED2".to_owned(), 0xC3));
    proof {
        assert(table_view(table@) =~= table_view(base) + sfr_timer2_and_watchdog());
    }
}

/// One group of the built-in register table.
pub open spec fn sfr_priority_high() -> Seq<(Seq<char>, u16)> {
    seq![
        ("IP0H"@, 0xB7u16),
    ]
}

fn push_sfr_priority_high(table: &mut Vec<(String, u16)>)
    ensures
        table_view(final(table)@) == table_view(old(table)@) + sfr_priority_high(),
{
    let ghost base = table@;
    table.push(("IP0H".to_owned(), 0xB7));
    proof {
        assert(table_view(table@) =~= table_view(base) + sfr_priority_high());
    }
}

/// The fixed table of 8051 special-function-register names and their
/// standard addresses. The label resolver consumes it as supplied data
/// appended after the source-defined labels.
pub open spec fn spec_sfr_table() -> Seq<(Seq<char>, u16)> {
    sfr_ports_and_timers() + sfr_serial_and_capture() + sfr_compare_and_i2c() + sfr_interrupts_and_keys() + sfr_output_compare() + sfr_timer2_and_watchdog() + sfr_priority_high()
}

/// The built-in special-function-register name table.
pub fn builtin_sfr_table() -> (r: Vec<(String, u16)>)
    ensures
        table_view(r@) == spec_sfr_table(),
{
    let mut table: Vec<(String, u16)> = Vec::new();
    proof {
        assert(table_view(table@) =~= Seq::<(Seq<char>, u16)>::empty());
    }
    push_sfr_ports_and_timers(&mut table);
    push_sfr_serial_and_capture(&mut table);
    push_sfr_compare_and_i2c(&mut table);
    push_sfr_interrupts_and_keys(&mut table);
    push_sfr_output_compare(&mut table);
    push_sfr_timer2_and_watchdog(&mut table);
    push_sfr_priority_high(&mut table);
    proof {
        assert(table_view(table@) =~= spec_sfr_table());
    }
    table
}

/// Every label definition of every section, in section order.
pub open spec fn spec_sections_entries(ss: Seq<SectionView>) -> Seq<(Seq<char>, u16)>
    decreases ss.len(),
{
    if ss.len() == 0 {
        Seq::<(Seq<char>, u16)>::empty()
    } else {
        spec_sections_entries(ss.drop_last()) + spec_label_entries(
            ss.last().instructions,
            ss.last().offset,
        )
    }
}

/// Pass one of label resolution: every section's label definitions, in
/// order, followed by the supplied built-in register names.
pub fn build_label_table(sections: &Vec<Section>, builtins: &Vec<(String, u16)>) -> (r: Vec<
    (String, u16),
>)
    ensures
        table_view(r@) == spec_sections_entries(sections_view(sections@)) + table_view(
            builtins@,
        ),
{
    let ghost sv = sections_view(sections@);
    let mut table: Vec<(String, u16)> = Vec::new();
    let mut i: usize = 0;
    proof {
        assert(sv.take(0) =~= Seq::<SectionView>::empty());
        assert(table_view(table@) =~= Seq::<(Seq<char>, u16)>::empty());
    }
    while i < sections.len()
        invariant
            sv == sections_view(sections@),
            0 <= i <= sections@.len(),
            sv.len() == sections@.len(),
            table_view(table@) =~= spec_sections_entries(sv.take(i as int)),
        decreases sections@.len() - i,
    {
        proof {
            assert(sv.take(i + 1).drop_last() =~= sv.take(i as int));
            assert(sv.take(i + 1).last() == sv[i as int]);
            assert(sv[i as int] == sections@[i as int]@);
        }
        let mut sub = sections[i].build_label_table();
        let ghost prev = table@;
        let ghost subv = sub@;
        table.append(&mut sub);
        proof {
            assert(table@ =~= prev + subv);
            assert(table_view(table@) =~= table_view(prev) + table_view(subv));
        }
        i += 1;
    }
    proof {
        assert(sv.take(sections@.len() as int) =~= sv);
    }
    let mut j: usize = 0;
    let ghost base = table@;
    while j < builtins.len()
        invariant
            0 <= j <= builtins@.len(),
            table_view(table@) =~= table_view(base) + table_view(builtins@.take(j as int)),
        decreases builtins@.len() - j,
    {
        let name = builtins[j].0.clone();
        let addr = builtins[j].1;
        let ghost prev = table@;
        table.push((name, addr));
        proof {
            assert(table_view(table@) =~= table_view(prev).push((name@, addr)));
            assert(table_view(builtins@.take(j + 1)) =~= table_view(
                builtins@.take(j as int),
            ).push((builtins@[j as int].0@, builtins@[j as int].1)));
        }
        j += 1;
    }
    proof {
        assert(builtins@.take(builtins@.len() as int) =~= builtins@);
    }
    table
}

} // verus!
