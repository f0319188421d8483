//! The bytecode map: every byte value names one opcode (or a reserved slot),
//! with its immediate width and its stack input/output counts.

use vstd::prelude::*;
use crate::error::{ItrErr, ItrErrCode, VmrtErr, VmrtRes};
use crate::text::str_eq;

verus! {

/// One byte of the instruction stream. Variants are listed in byte order, so
/// the n-th variant stands for byte value n; `____________xx` variants are
/// reserved slots that are not valid opcodes.
#[allow(non_camel_case_types)]
#[derive(PartialEq, Eq, Structural, Debug, Clone, Copy)]
pub enum Bytecode {
    ACTION,
    ____________01,
    ____________02,
    ____________03,
    ____________04,
    ____________05,
    ACTVIEW,
    ACTENV,
    NTENV,
    NTCTL,
    NTFUNC,
    ____________0b,
    ____________0c,
    ____________0d,
    ____________0e,
    ____________0f,
    ____________10,
    ____________11,
    CODE_CALL,
    CALL,
    CALLEXT,
    CALLEXTVIEW,
    CALLUSEVIEW,
    CALLUSEPURE,
    CALLTHIS,
    CALLSELF,
    CALLSUPER,
    CALLSELFVIEW,
    CALLSELFPURE,
    ____________1d,
    ____________1e,
    ____________1f,
    PU8,
    PU16,
    PBUF,
    PBUFL,
    P0,
    P1,
    P2,
    P3,
    PNIL,
    PNBUF,
    PTRUE,
    PFALSE,
    ____________2c,
    ____________2d,
    ____________2e,
    ____________2f,
    CU8,
    CU16,
    CU32,
    CU64,
    CU128,
    ____________35,
    CBYTES,
    CTO,
    TNIL,
    TLIST,
    TMAP,
    TIS,
    TID,
    ____________3d,
    ____________3e,
    ____________3f,
    DUP,
    DUPN,
    POP,
    POPN,
    ROLL0,
    ROLL,
    SWAP,
    REV,
    CAT,
    JOIN,
    BYTE,
    CUT,
    LEFT,
    RIGHT,
    LDROP,
    RDROP,
    SIZE,
    CHOOSE,
    ____________52,
    ____________53,
    ____________54,
    ____________55,
    ____________56,
    ____________57,
    NEWLIST,
    NEWMAP,
    PACKLIST,
    PACKMAP,
    INSERT,
    REMOVE,
    CLEAR,
    MERGE,
    LENGTH,
    HASKEY,
    ITEMGET,
    KEYS,
    VALUES,
    TAKEFIRST,
    TAKELAST,
    APPEND,
    CLONE,
    UNPACK,
    PACKTUPLE,
    TUPLE2LIST,
    ____________6c,
    ____________6d,
    ____________6e,
    ____________6f,
    GPUT,
    GGET,
    MPUT,
    MGET,
    MONCE,
    MTAKE,
    MPATCH,
    ____________77,
    ____________78,
    XLG,
    XOP,
    GET,
    PUT,
    GETX,
    PUTX,
    ALLOC,
    GET0,
    GET1,
    GET2,
    GET3,
    ____________84,
    ____________85,
    ____________86,
    ____________87,
    ____________88,
    HREADUL,
    HREADU,
    HWRITEXL,
    HWRITEX,
    HREAD,
    HWRITE,
    HGROW,
    LOG1,
    LOG2,
    LOG3,
    LOG4,
    ____________94,
    ____________95,
    SPUT,
    SGET,
    SSTAT,
    SLOAD,
    SPATCH,
    SEDIT,
    SDEL,
    SNEW,
    SRECV,
    SRENT,
    AND,
    OR,
    EQ,
    NEQ,
    LT,
    GT,
    LE,
    GE,
    NOT,
    ____________a9,
    ____________aa,
    BSHR,
    BSHL,
    BXOR,
    BOR,
    BAND,
    ADD,
    SUB,
    MUL,
    DIV,
    MOD,
    POW,
    SQRT,
    SQRTUP,
    MAX,
    MIN,
    CLAMP,
    ABSDIFF,
    INC,
    DEC,
    ____________be,
    ____________bf,
    ADDMOD,
    MULMOD,
    MULADD,
    MULSUB,
    DIVUP,
    DIVEXACT,
    MULDIV,
    MULDIVUP,
    ____________c8,
    ____________c9,
    FINPOW3,
    FINP4,
    FINP3,
    FIN4,
    FIN3,
    FIN2,
    ____________d0,
    ____________d1,
    ____________d2,
    ____________d3,
    ____________d4,
    ____________d5,
    ____________d6,
    ____________d7,
    ____________d8,
    ____________d9,
    ____________da,
    ____________db,
    ____________dc,
    ____________dd,
    ____________de,
    ____________df,
    JMPL,
    JMPS,
    JMPSL,
    BRL,
    BRS,
    BRSL,
    BRSLN,
    ____________e7,
    ____________e8,
    ____________e9,
    PRT,
    AST,
    ERR,
    ABT,
    RET,
    END,
    IRBYTECODE,
    IRLIST,
    IRBLOCK,
    IRBLOCKR,
    IRIF,
    IRIFR,
    IRWHILE,
    IRBREAK,
    IRCONTINUE,
    ____________f9,
    ____________fa,
    ____________fb,
    ____________fc,
    BURN,
    NOP,
    NT,
}

/// The byte value of an opcode.
pub open spec fn spec_byte(b: Bytecode) -> u8 {
    match b {
        Bytecode::ACTION => 0,
        Bytecode::____________01 => 1,
        Bytecode::____________02 => 2,
        Bytecode::____________03 => 3,
        Bytecode::____________04 => 4,
        Bytecode::____________05 => 5,
        Bytecode::ACTVIEW => 6,
        Bytecode::ACTENV => 7,
        Bytecode::NTENV => 8,
        Bytecode::NTCTL => 9,
        Bytecode::NTFUNC => 10,
        Bytecode::____________0b => 11,
        Bytecode::____________0c => 12,
        Bytecode::____________0d => 13,
        Bytecode::____________0e => 14,
        Bytecode::____________0f => 15,
        Bytecode::____________10 => 16,
        Bytecode::____________11 => 17,
        Bytecode::CODE_CALL => 18,
        Bytecode::CALL => 19,
        Bytecode::CALLEXT => 20,
        Bytecode::CALLEXTVIEW => 21,
        Bytecode::CALLUSEVIEW => 22,
        Bytecode::CALLUSEPURE => 23,
        Bytecode::CALLTHIS => 24,
        Bytecode::CALLSELF => 25,
        Bytecode::CALLSUPER => 26,
        Bytecode::CALLSELFVIEW => 27,
        Bytecode::CALLSELFPURE => 28,
        Bytecode::____________1d => 29,
        Bytecode::____________1e => 30,
        Bytecode::____________1f => 31,
        Bytecode::PU8 => 32,
        Bytecode::PU16 => 33,
        Bytecode::PBUF => 34,
        Bytecode::PBUFL => 35,
        Bytecode::P0 => 36,
        Bytecode::P1 => 37,
        Bytecode::P2 => 38,
        Bytecode::P3 => 39,
        Bytecode::PNIL => 40,
        Bytecode::PNBUF => 41,
        Bytecode::PTRUE => 42,
        Bytecode::PFALSE => 43,
        Bytecode::____________2c => 44,
        Bytecode::____________2d => 45,
        Bytecode::____________2e => 46,
        Bytecode::____________2f => 47,
        Bytecode::CU8 => 48,
        Bytecode::CU16 => 49,
        Bytecode::CU32 => 50,
        Bytecode::CU64 => 51,
        Bytecode::CU128 => 52,
        Bytecode::____________35 => 53,
        Bytecode::CBYTES => 54,
        Bytecode::CTO => 55,
        Bytecode::TNIL => 56,
        Bytecode::TLIST => 57,
        Bytecode::TMAP => 58,
        Bytecode::TIS => 59,
        Bytecode::TID => 60,
        Bytecode::____________3d => 61,
        Bytecode::____________3e => 62,
        Bytecode::____________3f => 63,
        Bytecode::DUP => 64,
        Bytecode::DUPN => 65,
        Bytecode::POP => 66,
        Bytecode::POPN => 67,
        Bytecode::ROLL0 => 68,
        Bytecode::ROLL => 69,
        Bytecode::SWAP => 70,
        Bytecode::REV => 71,
        Bytecode::CAT => 72,
        Bytecode::JOIN => 73,
        Bytecode::BYTE => 74,
        Bytecode::CUT => 75,
        Bytecode::LEFT => 76,
        Bytecode::RIGHT => 77,
        Bytecode::LDROP => 78,
        Bytecode::RDROP => 79,
        Bytecode::SIZE => 80,
        Bytecode::CHOOSE => 81,
        Bytecode::____________52 => 82,
        Bytecode::____________53 => 83,
        Bytecode::____________54 => 84,
        Bytecode::____________55 => 85,
        Bytecode::____________56 => 86,
        Bytecode::____________57 => 87,
        Bytecode::NEWLIST => 88,
        Bytecode::NEWMAP => 89,
        Bytecode::PACKLIST => 90,
        Bytecode::PACKMAP => 91,
        Bytecode::INSERT => 92,
        Bytecode::REMOVE => 93,
        Bytecode::CLEAR => 94,
        Bytecode::MERGE => 95,
        Bytecode::LENGTH => 96,
        Bytecode::HASKEY => 97,
        Bytecode::ITEMGET => 98,
        Bytecode::KEYS => 99,
        Bytecode::VALUES => 100,
        Bytecode::TAKEFIRST => 101,
        Bytecode::TAKELAST => 102,
        Bytecode::APPEND => 103,
        Bytecode::CLONE => 104,
        Bytecode::UNPACK => 105,
        Bytecode::PACKTUPLE => 106,
        Bytecode::TUPLE2LIST => 107,
        Bytecode::____________6c => 108,
        Bytecode::____________6d => 109,
        Bytecode::____________6e => 110,
        Bytecode::____________6f => 111,
        Bytecode::GPUT => 112,
        Bytecode::GGET => 113,
        Bytecode::MPUT => 114,
        Bytecode::MGET => 115,
        Bytecode::MONCE => 116,
        Bytecode::MTAKE => 117,
        Bytecode::MPATCH => 118,
        Bytecode::____________77 => 119,
        Bytecode::____________78 => 120,
        Bytecode::XLG => 121,
        Bytecode::XOP => 122,
        Bytecode::GET => 123,
        Bytecode::PUT => 124,
        Bytecode::GETX => 125,
        Bytecode::PUTX => 126,
        Bytecode::ALLOC => 127,
        Bytecode::GET0 => 128,
        Bytecode::GET1 => 129,
        Bytecode::GET2 => 130,
        Bytecode::GET3 => 131,
        Bytecode::____________84 => 132,
        Bytecode::____________85 => 133,
        Bytecode::____________86 => 134,
        Bytecode::____________87 => 135,
        Bytecode::____________88 => 136,
        Bytecode::HREADUL => 137,
        Bytecode::HREADU => 138,
        Bytecode::HWRITEXL => 139,
        Bytecode::HWRITEX => 140,
        Bytecode::HREAD => 141,
        Bytecode::HWRITE => 142,
        Bytecode::HGROW => 143,
        Bytecode::LOG1 => 144,
        Bytecode::LOG2 => 145,
        Bytecode::LOG3 => 146,
        Bytecode::LOG4 => 147,
        Bytecode::____________94 => 148,
        Bytecode::____________95 => 149,
        Bytecode::SPUT => 150,
        Bytecode::SGET => 151,
        Bytecode::SSTAT => 152,
        Bytecode::SLOAD => 153,
        Bytecode::SPATCH => 154,
        Bytecode::SEDIT => 155,
        Bytecode::SDEL => 156,
        Bytecode::SNEW => 157,
        Bytecode::SRECV => 158,
        Bytecode::SRENT => 159,
        Bytecode::AND => 160,
        Bytecode::OR => 161,
        Bytecode::EQ => 162,
        Bytecode::NEQ => 163,
        Bytecode::LT => 164,
        Bytecode::GT => 165,
        Bytecode::LE => 166,
        Bytecode::GE => 167,
        Bytecode::NOT => 168,
        Bytecode::____________a9 => 169,
        Bytecode::____________aa => 170,
        Bytecode::BSHR => 171,
        Bytecode::BSHL => 172,
        Bytecode::BXOR => 173,
        Bytecode::BOR => 174,
        Bytecode::BAND => 175,
        Bytecode::ADD => 176,
        Bytecode::SUB => 177,
        Bytecode::MUL => 178,
        Bytecode::DIV => 179,
        Bytecode::MOD => 180,
        Bytecode::POW => 181,
        Bytecode::SQRT => 182,
        Bytecode::SQRTUP => 183,
        Bytecode::MAX => 184,
        Bytecode::MIN => 185,
        Bytecode::CLAMP => 186,
        Bytecode::ABSDIFF => 187,
        Bytecode::INC => 188,
        Bytecode::DEC => 189,
        Bytecode::____________be => 190,
        Bytecode::____________bf => 191,
        Bytecode::ADDMOD => 192,
        Bytecode::MULMOD => 193,
        Bytecode::MULADD => 194,
        Bytecode::MULSUB => 195,
        Bytecode::DIVUP => 196,
        Bytecode::DIVEXACT => 197,
        Bytecode::MULDIV => 198,
        Bytecode::MULDIVUP => 199,
        Bytecode::____________c8 => 200,
        Bytecode::____________c9 => 201,
        Bytecode::FINPOW3 => 202,
        Bytecode::FINP4 => 203,
        Bytecode::FINP3 => 204,
        Bytecode::FIN4 => 205,
        Bytecode::FIN3 => 206,
        Bytecode::FIN2 => 207,
        Bytecode::____________d0 => 208,
        Bytecode::____________d1 => 209,
        Bytecode::____________d2 => 210,
        Bytecode::____________d3 => 211,
        Bytecode::____________d4 => 212,
        Bytecode::____________d5 => 213,
        Bytecode::____________d6 => 214,
        Bytecode::____________d7 => 215,
        Bytecode::____________d8 => 216,
        Bytecode::____________d9 => 217,
        Bytecode::____________da => 218,
        Bytecode::____________db => 219,
        Bytecode::____________dc => 220,
        Bytecode::____________dd => 221,
        Bytecode::____________de => 222,
        Bytecode::____________df => 223,
        Bytecode::JMPL => 224,
        Bytecode::JMPS => 225,
        Bytecode::JMPSL => 226,
        Bytecode::BRL => 227,
        Bytecode::BRS => 228,
        Bytecode::BRSL => 229,
        Bytecode::BRSLN => 230,
        Bytecode::____________e7 => 231,
        Bytecode::____________e8 => 232,
        Bytecode::____________e9 => 233,
        Bytecode::PRT => 234,
        Bytecode::AST => 235,
        Bytecode::ERR => 236,
        Bytecode::ABT => 237,
        Bytecode::RET => 238,
        Bytecode::END => 239,
        Bytecode::IRBYTECODE => 240,
        Bytecode::IRLIST => 241,
        Bytecode::IRBLOCK => 242,
        Bytecode::IRBLOCKR => 243,
        Bytecode::IRIF => 244,
        Bytecode::IRIFR => 245,
        Bytecode::IRWHILE => 246,
        Bytecode::IRBREAK => 247,
        Bytecode::IRCONTINUE => 248,
        Bytecode::____________f9 => 249,
        Bytecode::____________fa => 250,
        Bytecode::____________fb => 251,
        Bytecode::____________fc => 252,
        Bytecode::BURN => 253,
        Bytecode::NOP => 254,
        Bytecode::NT => 255,
    }
}

/// The opcode slot of a byte value.
pub open spec fn spec_from_byte(v: u8) -> Bytecode {
    match v {
        0 => Bytecode::ACTION,
        1 => Bytecode::____________01,
        2 => Bytecode::____________02,
        3 => Bytecode::____________03,
        4 => Bytecode::____________04,
        5 => Bytecode::____________05,
        6 => Bytecode::ACTVIEW,
        7 => Bytecode::ACTENV,
        8 => Bytecode::NTENV,
        9 => Bytecode::NTCTL,
        10 => Bytecode::NTFUNC,
        11 => Bytecode::____________0b,
        12 => Bytecode::____________0c,
        13 => Bytecode::____________0d,
        14 => Bytecode::____________0e,
        15 => Bytecode::____________0f,
        16 => Bytecode::____________10,
        17 => Bytecode::____________11,
        18 => Bytecode::CODE_CALL,
        19 => Bytecode::CALL,
        20 => Bytecode::CALLEXT,
        21 => Bytecode::CALLEXTVIEW,
        22 => Bytecode::CALLUSEVIEW,
        23 => Bytecode::CALLUSEPURE,
        24 => Bytecode::CALLTHIS,
        25 => Bytecode::CALLSELF,
        26 => Bytecode::CALLSUPER,
        27 => Bytecode::CALLSELFVIEW,
        28 => Bytecode::CALLSELFPURE,
        29 => Bytecode::____________1d,
        30 => Bytecode::____________1e,
        31 => Bytecode::____________1f,
        32 => Bytecode::PU8,
        33 => Bytecode::PU16,
        34 => Bytecode::PBUF,
        35 => Bytecode::PBUFL,
        36 => Bytecode::P0,
        37 => Bytecode::P1,
        38 => Bytecode::P2,
        39 => Bytecode::P3,
        40 => Bytecode::PNIL,
        41 => Bytecode::PNBUF,
        42 => Bytecode::PTRUE,
        43 => Bytecode::PFALSE,
        44 => Bytecode::____________2c,
        45 => Bytecode::____________2d,
        46 => Bytecode::____________2e,
        47 => Bytecode::____________2f,
        48 => Bytecode::CU8,
        49 => Bytecode::CU16,
        50 => Bytecode::CU32,
        51 => Bytecode::CU64,
        52 => Bytecode::CU128,
        53 => Bytecode::____________35,
        54 => Bytecode::CBYTES,
        55 => Bytecode::CTO,
        56 => Bytecode::TNIL,
        57 => Bytecode::TLIST,
        58 => Bytecode::TMAP,
        59 => Bytecode::TIS,
        60 => Bytecode::TID,
        61 => Bytecode::____________3d,
        62 => Bytecode::____________3e,
        63 => Bytecode::____________3f,
        64 => Bytecode::DUP,
        65 => Bytecode::DUPN,
        66 => Bytecode::POP,
        67 => Bytecode::POPN,
        68 => Bytecode::ROLL0,
        69 => Bytecode::ROLL,
        70 => Bytecode::SWAP,
        71 => Bytecode::REV,
        72 => Bytecode::CAT,
        73 => Bytecode::JOIN,
        74 => Bytecode::BYTE,
        75 => Bytecode::CUT,
        76 => Bytecode::LEFT,
        77 => Bytecode::RIGHT,
        78 => Bytecode::LDROP,
        79 => Bytecode::RDROP,
        80 => Bytecode::SIZE,
        81 => Bytecode::CHOOSE,
        82 => Bytecode::____________52,
        83 => Bytecode::____________53,
        84 => Bytecode::____________54,
        85 => Bytecode::____________55,
        86 => Bytecode::____________56,
        87 => Bytecode::____________57,
        88 => Bytecode::NEWLIST,
        89 => Bytecode::NEWMAP,
        90 => Bytecode::PACKLIST,
        91 => Bytecode::PACKMAP,
        92 => Bytecode::INSERT,
        93 => Bytecode::REMOVE,
        94 => Bytecode::CLEAR,
        95 => Bytecode::MERGE,
        96 => Bytecode::LENGTH,
        97 => Bytecode::HASKEY,
        98 => Bytecode::ITEMGET,
        99 => Bytecode::KEYS,
        100 => Bytecode::VALUES,
        101 => Bytecode::TAKEFIRST,
        102 => Bytecode::TAKELAST,
        103 => Bytecode::APPEND,
        104 => Bytecode::CLONE,
        105 => Bytecode::UNPACK,
        106 => Bytecode::PACKTUPLE,
        107 => Bytecode::TUPLE2LIST,
        108 => Bytecode::____________6c,
        109 => Bytecode::____________6d,
        110 => Bytecode::____________6e,
        111 => Bytecode::____________6f,
        112 => Bytecode::GPUT,
        113 => Bytecode::GGET,
        114 => Bytecode::MPUT,
        115 => Bytecode::MGET,
        116 => Bytecode::MONCE,
        117 => Bytecode::MTAKE,
        118 => Bytecode::MPATCH,
        119 => Bytecode::____________77,
        120 => Bytecode::____________78,
        121 => Bytecode::XLG,
        122 => Bytecode::XOP,
        123 => Bytecode::GET,
        124 => Bytecode::PUT,
        125 => Bytecode::GETX,
        126 => Bytecode::PUTX,
        127 => Bytecode::ALLOC,
        128 => Bytecode::GET0,
        129 => Bytecode::GET1,
        130 => Bytecode::GET2,
        131 => Bytecode::GET3,
        132 => Bytecode::____________84,
        133 => Bytecode::____________85,
        134 => Bytecode::____________86,
        135 => Bytecode::____________87,
        136 => Bytecode::____________88,
        137 => Bytecode::HREADUL,
        138 => Bytecode::HREADU,
        139 => Bytecode::HWRITEXL,
        140 => Bytecode::HWRITEX,
        141 => Bytecode::HREAD,
        142 => Bytecode::HWRITE,
        143 => Bytecode::HGROW,
        144 => Bytecode::LOG1,
        145 => Bytecode::LOG2,
        146 => Bytecode::LOG3,
        147 => Bytecode::LOG4,
        148 => Bytecode::____________94,
        149 => Bytecode::____________95,
        150 => Bytecode::SPUT,
        151 => Bytecode::SGET,
        152 => Bytecode::SSTAT,
        153 => Bytecode::SLOAD,
        154 => Bytecode::SPATCH,
        155 => Bytecode::SEDIT,
        156 => Bytecode::SDEL,
        157 => Bytecode::SNEW,
        158 => Bytecode::SRECV,
        159 => Bytecode::SRENT,
        160 => Bytecode::AND,
        161 => Bytecode::OR,
        162 => Bytecode::EQ,
        163 => Bytecode::NEQ,
        164 => Bytecode::LT,
        165 => Bytecode::GT,
        166 => Bytecode::LE,
        167 => Bytecode::GE,
        168 => Bytecode::NOT,
        169 => Bytecode::____________a9,
        170 => Bytecode::____________aa,
        171 => Bytecode::BSHR,
        172 => Bytecode::BSHL,
        173 => Bytecode::BXOR,
        174 => Bytecode::BOR,
        175 => Bytecode::BAND,
        176 => Bytecode::ADD,
        177 => Bytecode::SUB,
        178 => Bytecode::MUL,
        179 => Bytecode::DIV,
        180 => Bytecode::MOD,
        181 => Bytecode::POW,
        182 => Bytecode::SQRT,
        183 => Bytecode::SQRTUP,
        184 => Bytecode::MAX,
        185 => Bytecode::MIN,
        186 => Bytecode::CLAMP,
        187 => Bytecode::ABSDIFF,
        188 => Bytecode::INC,
        189 => Bytecode::DEC,
        190 => Bytecode::____________be,
        191 => Bytecode::____________bf,
        192 => Bytecode::ADDMOD,
        193 => Bytecode::MULMOD,
        194 => Bytecode::MULADD,
        195 => Bytecode::MULSUB,
        196 => Bytecode::DIVUP,
        197 => Bytecode::DIVEXACT,
        198 => Bytecode::MULDIV,
        199 => Bytecode::MULDIVUP,
        200 => Bytecode::____________c8,
        201 => Bytecode::____________c9,
        202 => Bytecode::FINPOW3,
        203 => Bytecode::FINP4,
        204 => Bytecode::FINP3,
        205 => Bytecode::FIN4,
        206 => Bytecode::FIN3,
        207 => Bytecode::FIN2,
        208 => Bytecode::____________d0,
        209 => Bytecode::____________d1,
        210 => Bytecode::____________d2,
        211 => Bytecode::____________d3,
        212 => Bytecode::____________d4,
        213 => Bytecode::____________d5,
        214 => Bytecode::____________d6,
        215 => Bytecode::____________d7,
        216 => Bytecode::____________d8,
        217 => Bytecode::____________d9,
        218 => Bytecode::____________da,
        219 => Bytecode::____________db,
        220 => Bytecode::____________dc,
        221 => Bytecode::____________dd,
        222 => Bytecode::____________de,
        223 => Bytecode::____________df,
        224 => Bytecode::JMPL,
        225 => Bytecode::JMPS,
        226 => Bytecode::JMPSL,
        227 => Bytecode::BRL,
        228 => Bytecode::BRS,
        229 => Bytecode::BRSL,
        230 => Bytecode::BRSLN,
        231 => Bytecode::____________e7,
        232 => Bytecode::____________e8,
        233 => Bytecode::____________e9,
        234 => Bytecode::PRT,
        235 => Bytecode::AST,
        236 => Bytecode::ERR,
        237 => Bytecode::ABT,
        238 => Bytecode::RET,
        239 => Bytecode::END,
        240 => Bytecode::IRBYTECODE,
        241 => Bytecode::IRLIST,
        242 => Bytecode::IRBLOCK,
        243 => Bytecode::IRBLOCKR,
        244 => Bytecode::IRIF,
        245 => Bytecode::IRIFR,
        246 => Bytecode::IRWHILE,
        247 => Bytecode::IRBREAK,
        248 => Bytecode::IRCONTINUE,
        249 => Bytecode::____________f9,
        250 => Bytecode::____________fa,
        251 => Bytecode::____________fb,
        252 => Bytecode::____________fc,
        253 => Bytecode::BURN,
        254 => Bytecode::NOP,
        _ => Bytecode::NT,
    }
}

/// Static description of an opcode: whether it is valid, its immediate byte
/// count, its stack input count and its stack output count (255 marks a
/// dynamic count).
pub open spec fn spec_meta(v: u8) -> (bool, u8, u8, u8) {
    match v {
        0 => (true, 1, 1, 0),
        6 => (true, 1, 1, 1),
        7 => (true, 1, 0, 1),
        8 => (true, 1, 0, 1),
        9 => (true, 1, 1, 1),
        10 => (true, 1, 1, 1),
        18 => (true, 5, 1, 0),
        19 => (true, 6, 1, 1),
        20 => (true, 5, 1, 1),
        21 => (true, 5, 1, 1),
        22 => (true, 5, 1, 1),
        23 => (true, 5, 1, 1),
        24 => (true, 4, 1, 1),
        25 => (true, 4, 1, 1),
        26 => (true, 4, 1, 1),
        27 => (true, 4, 1, 1),
        28 => (true, 4, 1, 1),
        32 => (true, 1, 0, 1),
        33 => (true, 2, 0, 1),
        34 => (true, 1, 0, 1),
        35 => (true, 2, 0, 1),
        36 => (true, 0, 0, 1),
        37 => (true, 0, 0, 1),
        38 => (true, 0, 0, 1),
        39 => (true, 0, 0, 1),
        40 => (true, 0, 0, 1),
        41 => (true, 0, 0, 1),
        42 => (true, 0, 0, 1),
        43 => (true, 0, 0, 1),
        48 => (true, 0, 1, 1),
        49 => (true, 0, 1, 1),
        50 => (true, 0, 1, 1),
        51 => (true, 0, 1, 1),
        52 => (true, 0, 1, 1),
        54 => (true, 0, 1, 1),
        55 => (true, 1, 1, 1),
        56 => (true, 0, 1, 1),
        57 => (true, 0, 1, 1),
        58 => (true, 0, 1, 1),
        59 => (true, 1, 1, 1),
        60 => (true, 0, 1, 1),
        64 => (true, 0, 0, 1),
        65 => (true, 1, 0, 255),
        66 => (true, 0, 255, 0),
        67 => (true, 1, 255, 0),
        68 => (true, 0, 0, 1),
        69 => (true, 1, 0, 1),
        70 => (true, 0, 2, 2),
        71 => (true, 1, 255, 255),
        72 => (true, 0, 2, 1),
        73 => (true, 1, 255, 1),
        74 => (true, 0, 2, 1),
        75 => (true, 0, 3, 1),
        76 => (true, 1, 1, 1),
        77 => (true, 1, 1, 1),
        78 => (true, 1, 1, 1),
        79 => (true, 1, 1, 1),
        80 => (true, 0, 1, 1),
        81 => (true, 0, 3, 1),
        88 => (true, 0, 0, 1),
        89 => (true, 0, 0, 1),
        90 => (true, 0, 255, 1),
        91 => (true, 0, 255, 1),
        92 => (true, 0, 3, 1),
        93 => (true, 0, 2, 1),
        94 => (true, 0, 1, 1),
        95 => (true, 0, 2, 1),
        96 => (true, 0, 1, 1),
        97 => (true, 0, 2, 1),
        98 => (true, 0, 2, 1),
        99 => (true, 0, 1, 1),
        100 => (true, 0, 1, 1),
        101 => (true, 0, 1, 1),
        102 => (true, 0, 1, 1),
        103 => (true, 0, 2, 1),
        104 => (true, 0, 1, 1),
        105 => (true, 0, 2, 0),
        106 => (true, 0, 255, 1),
        107 => (true, 0, 1, 1),
        112 => (true, 0, 2, 0),
        113 => (true, 0, 1, 1),
        114 => (true, 0, 2, 0),
        115 => (true, 0, 1, 1),
        116 => (true, 0, 2, 0),
        117 => (true, 0, 1, 1),
        118 => (true, 0, 3, 1),
        121 => (true, 1, 1, 1),
        122 => (true, 1, 1, 0),
        123 => (true, 1, 0, 1),
        124 => (true, 1, 1, 0),
        125 => (true, 0, 1, 1),
        126 => (true, 0, 2, 0),
        127 => (true, 1, 0, 0),
        128 => (true, 0, 0, 1),
        129 => (true, 0, 0, 1),
        130 => (true, 0, 0, 1),
        131 => (true, 0, 0, 1),
        137 => (true, 2, 0, 1),
        138 => (true, 1, 0, 1),
        139 => (true, 2, 1, 0),
        140 => (true, 1, 1, 0),
        141 => (true, 0, 2, 1),
        142 => (true, 0, 2, 0),
        143 => (true, 1, 0, 0),
        144 => (true, 0, 2, 0),
        145 => (true, 0, 3, 0),
        146 => (true, 0, 4, 0),
        147 => (true, 0, 5, 0),
        150 => (true, 0, 2, 0),
        151 => (true, 0, 1, 1),
        152 => (true, 0, 1, 1),
        153 => (true, 0, 1, 1),
        154 => (true, 0, 3, 1),
        155 => (true, 0, 2, 0),
        156 => (true, 0, 1, 0),
        157 => (true, 0, 3, 0),
        158 => (true, 0, 2, 0),
        159 => (true, 0, 2, 0),
        160 => (true, 0, 2, 1),
        161 => (true, 0, 2, 1),
        162 => (true, 0, 2, 1),
        163 => (true, 0, 2, 1),
        164 => (true, 0, 2, 1),
        165 => (true, 0, 2, 1),
        166 => (true, 0, 2, 1),
        167 => (true, 0, 2, 1),
        168 => (true, 0, 1, 1),
        171 => (true, 0, 2, 1),
        172 => (true, 0, 2, 1),
        173 => (true, 0, 2, 1),
        174 => (true, 0, 2, 1),
        175 => (true, 0, 2, 1),
        176 => (true, 0, 2, 1),
        177 => (true, 0, 2, 1),
        178 => (true, 0, 2, 1),
        179 => (true, 0, 2, 1),
        180 => (true, 0, 2, 1),
        181 => (true, 0, 2, 1),
        182 => (true, 0, 1, 1),
        183 => (true, 0, 1, 1),
        184 => (true, 0, 2, 1),
        185 => (true, 0, 2, 1),
        186 => (true, 0, 3, 1),
        187 => (true, 0, 2, 1),
        188 => (true, 1, 1, 1),
        189 => (true, 1, 1, 1),
        192 => (true, 0, 3, 1),
        193 => (true, 0, 3, 1),
        194 => (true, 0, 3, 1),
        195 => (true, 0, 3, 1),
        196 => (true, 0, 2, 1),
        197 => (true, 0, 2, 1),
        198 => (true, 0, 3, 1),
        199 => (true, 0, 3, 1),
        202 => (true, 1, 3, 1),
        203 => (true, 1, 4, 1),
        204 => (true, 1, 3, 1),
        205 => (true, 1, 4, 1),
        206 => (true, 1, 3, 1),
        207 => (true, 1, 2, 1),
        224 => (true, 2, 0, 0),
        225 => (true, 1, 0, 0),
        226 => (true, 2, 0, 0),
        227 => (true, 2, 1, 0),
        228 => (true, 1, 1, 0),
        229 => (true, 2, 1, 0),
        230 => (true, 2, 1, 0),
        234 => (true, 0, 1, 0),
        235 => (true, 0, 1, 0),
        236 => (true, 0, 1, 0),
        237 => (true, 0, 0, 0),
        238 => (true, 0, 1, 0),
        239 => (true, 0, 0, 0),
        240 => (true, 2, 255, 0),
        241 => (true, 2, 255, 1),
        242 => (true, 2, 255, 0),
        243 => (true, 2, 255, 1),
        244 => (true, 0, 3, 0),
        245 => (true, 0, 3, 1),
        246 => (true, 0, 2, 0),
        247 => (true, 0, 0, 0),
        248 => (true, 0, 0, 0),
        253 => (true, 2, 0, 0),
        254 => (true, 0, 0, 0),
        255 => (true, 0, 0, 0),
        _ => (false, 0, 0, 0),
    }
}

/// The short description of an opcode.
pub open spec fn spec_intro(v: u8) -> Seq<char> {
    match v {
        0 => "action"@,
        6 => "actview"@,
        7 => "actenv"@,
        8 => "native_env"@,
        9 => "native_ctl"@,
        10 => "native_func"@,
        18 => "code_call"@,
        19 => "call"@,
        20 => "callext"@,
        21 => "callextview"@,
        22 => "calluseview"@,
        23 => "callusepure"@,
        24 => "callthis"@,
        25 => "callself"@,
        26 => "callsuper"@,
        27 => "callselfview"@,
        28 => "callselfpure"@,
        32 => "push_u8"@,
        33 => "push_u16"@,
        34 => "push_buf"@,
        35 => "push_buf_long"@,
        36 => "push_0"@,
        37 => "push_1"@,
        38 => "push_2"@,
        39 => "push_3"@,
        40 => "push_nil"@,
        41 => "push_empty_buf"@,
        42 => "push_true"@,
        43 => "push_false"@,
        48 => "cast_u8"@,
        49 => "cast_u16"@,
        50 => "cast_u32"@,
        51 => "cast_u64"@,
        52 => "cast_u128"@,
        54 => "cast_bytes"@,
        55 => "cast_to"@,
        56 => "type_is_nil"@,
        57 => "type_is_list"@,
        58 => "type_is_map"@,
        59 => "type_is"@,
        60 => "type_id"@,
        64 => "dump"@,
        65 => "dump_n"@,
        66 => "pop"@,
        67 => "pop_n"@,
        68 => "roll_0"@,
        69 => "roll"@,
        70 => "swap"@,
        71 => "reverse"@,
        72 => "concat"@,
        73 => "join"@,
        74 => "byte"@,
        75 => "buf_cut"@,
        76 => "buf_left"@,
        77 => "buf_right"@,
        78 => "buf_left_drop"@,
        79 => "buf_right_drop"@,
        80 => "size"@,
        81 => "choose"@,
        88 => "new_list"@,
        89 => "new_map"@,
        90 => "pack_list"@,
        91 => "pack_map"@,
        92 => "insert"@,
        93 => "remove"@,
        94 => "clear"@,
        95 => "merge"@,
        96 => "length"@,
        97 => "has_key"@,
        98 => "item_get"@,
        99 => "keys"@,
        100 => "values"@,
        101 => "take_first"@,
        102 => "take_last"@,
        103 => "append"@,
        104 => "clone"@,
        105 => "unpack"@,
        106 => "pack_tuple"@,
        107 => "tuple_to_list"@,
        112 => "global_put"@,
        113 => "global_get"@,
        114 => "memory_put"@,
        115 => "memory_get"@,
        116 => "memory_once"@,
        117 => "memory_take"@,
        118 => "memory_patch"@,
        121 => "local_logic"@,
        122 => "local_operand"@,
        123 => "local"@,
        124 => "local_put"@,
        125 => "local_x"@,
        126 => "local_x_put"@,
        127 => "local_alloc"@,
        128 => "local_0"@,
        129 => "local_1"@,
        130 => "local_2"@,
        131 => "local_3"@,
        137 => "heap_read_uint_long"@,
        138 => "heap_read_uint"@,
        139 => "heap_write_xl"@,
        140 => "heap_write_x"@,
        141 => "heap_read"@,
        142 => "heap_write"@,
        143 => "heap_grow"@,
        144 => "log_1"@,
        145 => "log_2"@,
        146 => "log_3"@,
        147 => "log_4"@,
        150 => "status_put"@,
        151 => "status_get"@,
        152 => "storage_stat"@,
        153 => "storage_load"@,
        154 => "storage_patch"@,
        155 => "storage_edit"@,
        156 => "storage_del"@,
        157 => "storage_new"@,
        158 => "storage_recv"@,
        159 => "storage_rent"@,
        160 => "and"@,
        161 => "or"@,
        162 => "equal"@,
        163 => "not_equal"@,
        164 => "less_than"@,
        165 => "greater_than"@,
        166 => "less_equal"@,
        167 => "greater_equal"@,
        168 => "not"@,
        171 => "bit_shr"@,
        172 => "bit_shl"@,
        173 => "bit_xor"@,
        174 => "bit_or"@,
        175 => "bit_and"@,
        176 => "add"@,
        177 => "sub"@,
        178 => "mul"@,
        179 => "div"@,
        180 => "mod"@,
        181 => "pow"@,
        182 => "sqrt"@,
        183 => "sqrt_up"@,
        184 => "max"@,
        185 => "min"@,
        186 => "clamp"@,
        187 => "abs_diff"@,
        188 => "increase"@,
        189 => "decrease"@,
        192 => "add_mod"@,
        193 => "mul_mod"@,
        194 => "mul_add"@,
        195 => "mul_sub"@,
        196 => "div_up"@,
        197 => "div_exact_op"@,
        198 => "mul_div"@,
        199 => "mul_div_up"@,
        202 => "fin_pow3"@,
        203 => "fin_p4"@,
        204 => "fin_p3"@,
        205 => "fin_4"@,
        206 => "fin_3"@,
        207 => "fin_2"@,
        224 => "jump_long"@,
        225 => "jump_offset"@,
        226 => "jump_offset_long"@,
        227 => "branch_long"@,
        228 => "branch_offset"@,
        229 => "branch_offset_long"@,
        230 => "branch_offset_long_not"@,
        234 => "print"@,
        235 => "assert"@,
        236 => "throw"@,
        237 => "abort"@,
        238 => "return"@,
        239 => "end"@,
        240 => "ir_bytecode"@,
        241 => "ir_list"@,
        242 => "ir_block"@,
        243 => "ir_block_expr"@,
        244 => "ir_if"@,
        245 => "ir_if_expr"@,
        246 => "ir_while"@,
        247 => "ir_break"@,
        248 => "ir_continue"@,
        253 => "gas_burn"@,
        254 => "nop"@,
        255 => "never_touch"@,
        _ => ""@,
    }
}

/// The opcode named by its mnemonic.
pub open spec fn spec_parse_name(s: Seq<char>) -> Option<Bytecode> {
    if s == "ACTION"@ {
        Some(Bytecode::ACTION)
    } else if s == "ACTVIEW"@ {
        Some(Bytecode::ACTVIEW)
    } else if s == "ACTENV"@ {
        Some(Bytecode::ACTENV)
    } else if s == "NTENV"@ {
        Some(Bytecode::NTENV)
    } else if s == "NTCTL"@ {
        Some(Bytecode::NTCTL)
    } else if s == "NTFUNC"@ {
        Some(Bytecode::NTFUNC)
    } else if s == "CODE_CALL"@ {
        Some(Bytecode::CODE_CALL)
    } else if s == "CALL"@ {
        Some(Bytecode::CALL)
    } else if s == "CALLEXT"@ {
        Some(Bytecode::CALLEXT)
    } else if s == "CALLEXTVIEW"@ {
        Some(Bytecode::CALLEXTVIEW)
    } else if s == "CALLUSEVIEW"@ {
        Some(Bytecode::CALLUSEVIEW)
    } else if s == "CALLUSEPURE"@ {
        Some(Bytecode::CALLUSEPURE)
    } else if s == "CALLTHIS"@ {
        Some(Bytecode::CALLTHIS)
    } else if s == "CALLSELF"@ {
        Some(Bytecode::CALLSELF)
    } else if s == "CALLSUPER"@ {
        Some(Bytecode::CALLSUPER)
    } else if s == "CALLSELFVIEW"@ {
        Some(Bytecode::CALLSELFVIEW)
    } else if s == "CALLSELFPURE"@ {
        Some(Bytecode::CALLSELFPURE)
    } else if s == "PU8"@ {
        Some(Bytecode::PU8)
    } else if s == "PU16"@ {
        Some(Bytecode::PU16)
    } else if s == "PBUF"@ {
        Some(Bytecode::PBUF)
    } else if s == "PBUFL"@ {
        Some(Bytecode::PBUFL)
    } else if s == "P0"@ {
        Some(Bytecode::P0)
    } else if s == "P1"@ {
        Some(Bytecode::P1)
    } else if s == "P2"@ {
        Some(Bytecode::P2)
    } else if s == "P3"@ {
        Some(Bytecode::P3)
    } else if s == "PNIL"@ {
        Some(Bytecode::PNIL)
    } else if s == "PNBUF"@ {
        Some(Bytecode::PNBUF)
    } else if s == "PTRUE"@ {
        Some(Bytecode::PTRUE)
    } else if s == "PFALSE"@ {
        Some(Bytecode::PFALSE)
    } else if s == "CU8"@ {
        Some(Bytecode::CU8)
    } else if s == "CU16"@ {
        Some(Bytecode::CU16)
    } else if s == "CU32"@ {
        Some(Bytecode::CU32)
    } else if s == "CU64"@ {
        Some(Bytecode::CU64)
    } else if s == "CU128"@ {
        Some(Bytecode::CU128)
    } else if s == "CBYTES"@ {
        Some(Bytecode::CBYTES)
    } else if s == "CTO"@ {
        Some(Bytecode::CTO)
    } else if s == "TNIL"@ {
        Some(Bytecode::TNIL)
    } else if s == "TLIST"@ {
        Some(Bytecode::TLIST)
    } else if s == "TMAP"@ {
        Some(Bytecode::TMAP)
    } else if s == "TIS"@ {
        Some(Bytecode::TIS)
    } else if s == "TID"@ {
        Some(Bytecode::TID)
    } else if s == "DUP"@ {
        Some(Bytecode::DUP)
    } else if s == "DUPN"@ {
        Some(Bytecode::DUPN)
    } else if s == "POP"@ {
        Some(Bytecode::POP)
    } else if s == "POPN"@ {
        Some(Bytecode::POPN)
    } else if s == "ROLL0"@ {
        Some(Bytecode::ROLL0)
    } else if s == "ROLL"@ {
        Some(Bytecode::ROLL)
    } else if s == "SWAP"@ {
        Some(Bytecode::SWAP)
    } else if s == "REV"@ {
        Some(Bytecode::REV)
    } else if s == "CAT"@ {
        Some(Bytecode::CAT)
    } else if s == "JOIN"@ {
        Some(Bytecode::JOIN)
    } else if s == "BYTE"@ {
        Some(Bytecode::BYTE)
    } else if s == "CUT"@ {
        Some(Bytecode::CUT)
    } else if s == "LEFT"@ {
        Some(Bytecode::LEFT)
    } else if s == "RIGHT"@ {
        Some(Bytecode::RIGHT)
    } else if s == "LDROP"@ {
        Some(Bytecode::LDROP)
    } else if s == "RDROP"@ {
        Some(Bytecode::RDROP)
    } else if s == "SIZE"@ {
        Some(Bytecode::SIZE)
    } else if s == "CHOOSE"@ {
        Some(Bytecode::CHOOSE)
    } else if s == "NEWLIST"@ {
        Some(Bytecode::NEWLIST)
    } else if s == "NEWMAP"@ {
        Some(Bytecode::NEWMAP)
    } else if s == "PACKLIST"@ {
        Some(Bytecode::PACKLIST)
    } else if s == "PACKMAP"@ {
        Some(Bytecode::PACKMAP)
    } else if s == "INSERT"@ {
        Some(Bytecode::INSERT)
    } else if s == "REMOVE"@ {
        Some(Bytecode::REMOVE)
    } else if s == "CLEAR"@ {
        Some(Bytecode::CLEAR)
    } else if s == "MERGE"@ {
        Some(Bytecode::MERGE)
    } else if s == "LENGTH"@ {
        Some(Bytecode::LENGTH)
    } else if s == "HASKEY"@ {
        Some(Bytecode::HASKEY)
    } else if s == "ITEMGET"@ {
        Some(Bytecode::ITEMGET)
    } else if s == "KEYS"@ {
        Some(Bytecode::KEYS)
    } else if s == "VALUES"@ {
        Some(Bytecode::VALUES)
    } else if s == "TAKEFIRST"@ {
        Some(Bytecode::TAKEFIRST)
    } else if s == "TAKELAST"@ {
        Some(Bytecode::TAKELAST)
    } else if s == "APPEND"@ {
        Some(Bytecode::APPEND)
    } else if s == "CLONE"@ {
        Some(Bytecode::CLONE)
    } else if s == "UNPACK"@ {
        Some(Bytecode::UNPACK)
    } else if s == "PACKTUPLE"@ {
        Some(Bytecode::PACKTUPLE)
    } else if s == "TUPLE2LIST"@ {
        Some(Bytecode::TUPLE2LIST)
    } else if s == "GPUT"@ {
        Some(Bytecode::GPUT)
    } else if s == "GGET"@ {
        Some(Bytecode::GGET)
    } else if s == "MPUT"@ {
        Some(Bytecode::MPUT)
    } else if s == "MGET"@ {
        Some(Bytecode::MGET)
    } else if s == "MONCE"@ {
        Some(Bytecode::MONCE)
    } else if s == "MTAKE"@ {
        Some(Bytecode::MTAKE)
    } else if s == "MPATCH"@ {
        Some(Bytecode::MPATCH)
    } else if s == "XLG"@ {
        Some(Bytecode::XLG)
    } else if s == "XOP"@ {
        Some(Bytecode::XOP)
    } else if s == "GET"@ {
        Some(Bytecode::GET)
    } else if s == "PUT"@ {
        Some(Bytecode::PUT)
    } else if s == "GETX"@ {
        Some(Bytecode::GETX)
    } else if s == "PUTX"@ {
        Some(Bytecode::PUTX)
    } else if s == "ALLOC"@ {
        Some(Bytecode::ALLOC)
    } else if s == "GET0"@ {
        Some(Bytecode::GET0)
    } else if s == "GET1"@ {
        Some(Bytecode::GET1)
    } else if s == "GET2"@ {
        Some(Bytecode::GET2)
    } else if s == "GET3"@ {
        Some(Bytecode::GET3)
    } else if s == "HREADUL"@ {
        Some(Bytecode::HREADUL)
    } else if s == "HREADU"@ {
        Some(Bytecode::HREADU)
    } else if s == "HWRITEXL"@ {
        Some(Bytecode::HWRITEXL)
    } else if s == "HWRITEX"@ {
        Some(Bytecode::HWRITEX)
    } else if s == "HREAD"@ {
        Some(Bytecode::HREAD)
    } else if s == "HWRITE"@ {
        Some(Bytecode::HWRITE)
    } else if s == "HGROW"@ {
        Some(Bytecode::HGROW)
    } else if s == "LOG1"@ {
        Some(Bytecode::LOG1)
    } else if s == "LOG2"@ {
        Some(Bytecode::LOG2)
    } else if s == "LOG3"@ {
        Some(Bytecode::LOG3)
    } else if s == "LOG4"@ {
        Some(Bytecode::LOG4)
    } else if s == "SPUT"@ {
        Some(Bytecode::SPUT)
    } else if s == "SGET"@ {
        Some(Bytecode::SGET)
    } else if s == "SSTAT"@ {
        Some(Bytecode::SSTAT)
    } else if s == "SLOAD"@ {
        Some(Bytecode::SLOAD)
    } else if s == "SPATCH"@ {
        Some(Bytecode::SPATCH)
    } else if s == "SEDIT"@ {
        Some(Bytecode::SEDIT)
    } else if s == "SDEL"@ {
        Some(Bytecode::SDEL)
    } else if s == "SNEW"@ {
        Some(Bytecode::SNEW)
    } else if s == "SRECV"@ {
        Some(Bytecode::SRECV)
    } else if s == "SRENT"@ {
        Some(Bytecode::SRENT)
    } else if s == "AND"@ {
        Some(Bytecode::AND)
    } else if s == "OR"@ {
        Some(Bytecode::OR)
    } else if s == "EQ"@ {
        Some(Bytecode::EQ)
    } else if s == "NEQ"@ {
        Some(Bytecode::NEQ)
    } else if s == "LT"@ {
        Some(Bytecode::LT)
    } else if s == "GT"@ {
        Some(Bytecode::GT)
    } else if s == "LE"@ {
        Some(Bytecode::LE)
    } else if s == "GE"@ {
        Some(Bytecode::GE)
    } else if s == "NOT"@ {
        Some(Bytecode::NOT)
    } else if s == "BSHR"@ {
        Some(Bytecode::BSHR)
    } else if s == "BSHL"@ {
        Some(Bytecode::BSHL)
    } else if s == "BXOR"@ {
        Some(Bytecode::BXOR)
    } else if s == "BOR"@ {
        Some(Bytecode::BOR)
    } else if s == "BAND"@ {
        Some(Bytecode::BAND)
    } else if s == "ADD"@ {
        Some(Bytecode::ADD)
    } else if s == "SUB"@ {
        Some(Bytecode::SUB)
    } else if s == "MUL"@ {
        Some(Bytecode::MUL)
    } else if s == "DIV"@ {
        Some(Bytecode::DIV)
    } else if s == "MOD"@ {
        Some(Bytecode::MOD)
    } else if s == "POW"@ {
        Some(Bytecode::POW)
    } else if s == "SQRT"@ {
        Some(Bytecode::SQRT)
    } else if s == "SQRTUP"@ {
        Some(Bytecode::SQRTUP)
    } else if s == "MAX"@ {
        Some(Bytecode::MAX)
    } else if s == "MIN"@ {
        Some(Bytecode::MIN)
    } else if s == "CLAMP"@ {
        Some(Bytecode::CLAMP)
    } else if s == "ABSDIFF"@ {
        Some(Bytecode::ABSDIFF)
    } else if s == "INC"@ {
        Some(Bytecode::INC)
    } else if s == "DEC"@ {
        Some(Bytecode::DEC)
    } else if s == "ADDMOD"@ {
        Some(Bytecode::ADDMOD)
    } else if s == "MULMOD"@ {
        Some(Bytecode::MULMOD)
    } else if s == "MULADD"@ {
        Some(Bytecode::MULADD)
    } else if s == "MULSUB"@ {
        Some(Bytecode::MULSUB)
    } else if s == "DIVUP"@ {
        Some(Bytecode::DIVUP)
    } else if s == "DIVEXACT"@ {
        Some(Bytecode::DIVEXACT)
    } else if s == "MULDIV"@ {
        Some(Bytecode::MULDIV)
    } else if s == "MULDIVUP"@ {
        Some(Bytecode::MULDIVUP)
    } else if s == "FINPOW3"@ {
        Some(Bytecode::FINPOW3)
    } else if s == "FINP4"@ {
        Some(Bytecode::FINP4)
    } else if s == "FINP3"@ {
        Some(Bytecode::FINP3)
    } else if s == "FIN4"@ {
        Some(Bytecode::FIN4)
    } else if s == "FIN3"@ {
        Some(Bytecode::FIN3)
    } else if s == "FIN2"@ {
        Some(Bytecode::FIN2)
    } else if s == "JMPL"@ {
        Some(Bytecode::JMPL)
    } else if s == "JMPS"@ {
        Some(Bytecode::JMPS)
    } else if s == "JMPSL"@ {
        Some(Bytecode::JMPSL)
    } else if s == "BRL"@ {
        Some(Bytecode::BRL)
    } else if s == "BRS"@ {
        Some(Bytecode::BRS)
    } else if s == "BRSL"@ {
        Some(Bytecode::BRSL)
    } else if s == "BRSLN"@ {
        Some(Bytecode::BRSLN)
    } else if s == "PRT"@ {
        Some(Bytecode::PRT)
    } else if s == "AST"@ {
        Some(Bytecode::AST)
    } else if s == "ERR"@ {
        Some(Bytecode::ERR)
    } else if s == "ABT"@ {
        Some(Bytecode::ABT)
    } else if s == "RET"@ {
        Some(Bytecode::RET)
    } else if s == "END"@ {
        Some(Bytecode::END)
    } else if s == "IRBYTECODE"@ {
        Some(Bytecode::IRBYTECODE)
    } else if s == "IRLIST"@ {
        Some(Bytecode::IRLIST)
    } else if s == "IRBLOCK"@ {
        Some(Bytecode::IRBLOCK)
    } else if s == "IRBLOCKR"@ {
        Some(Bytecode::IRBLOCKR)
    } else if s == "IRIF"@ {
        Some(Bytecode::IRIF)
    } else if s == "IRIFR"@ {
        Some(Bytecode::IRIFR)
    } else if s == "IRWHILE"@ {
        Some(Bytecode::IRWHILE)
    } else if s == "IRBREAK"@ {
        Some(Bytecode::IRBREAK)
    } else if s == "IRCONTINUE"@ {
        Some(Bytecode::IRCONTINUE)
    } else if s == "BURN"@ {
        Some(Bytecode::BURN)
    } else if s == "NOP"@ {
        Some(Bytecode::NOP)
    } else if s == "NT"@ {
        Some(Bytecode::NT)
    } else {
        None
    }
}

/// Immediates, stack input and output, and description of an opcode.
#[derive(Debug, Clone, Copy)]
pub struct BytecodeMetadata {
    pub valid: bool,
    pub param: u8,
    pub input: u8,
    pub output: u8,
    pub intro: &'static str,
}

/// A byte value is a valid opcode.
pub open spec fn spec_valid(v: u8) -> bool {
    spec_meta(v).0
}

/// Is the opcode one of the user-call family (a contiguous run of bytes).
pub open spec fn spec_is_user_call(v: u8) -> bool {
    0x12 <= v <= 0x1c
}

/// Is the opcode a terminal instruction.
pub open spec fn spec_is_terminal(v: u8) -> bool {
    v == 0xee || v == 0xef || v == 0xec || v == 0xed
}

impl Bytecode {
    /// The byte value of this opcode.
    pub fn to_u8(self) -> (r: u8)
        ensures
            r == spec_byte(self),
    {
        match self {
            Bytecode::ACTION => 0,
            Bytecode::____________01 => 1,
            Bytecode::____________02 => 2,
            Bytecode::____________03 => 3,
            Bytecode::____________04 => 4,
            Bytecode::____________05 => 5,
            Bytecode::ACTVIEW => 6,
            Bytecode::ACTENV => 7,
            Bytecode::NTENV => 8,
            Bytecode::NTCTL => 9,
            Bytecode::NTFUNC => 10,
            Bytecode::____________0b => 11,
            Bytecode::____________0c => 12,
            Bytecode::____________0d => 13,
            Bytecode::____________0e => 14,
            Bytecode::____________0f => 15,
            Bytecode::____________10 => 16,
            Bytecode::____________11 => 17,
            Bytecode::CODE_CALL => 18,
            Bytecode::CALL => 19,
            Bytecode::CALLEXT => 20,
            Bytecode::CALLEXTVIEW => 21,
            Bytecode::CALLUSEVIEW => 22,
            Bytecode::CALLUSEPURE => 23,
            Bytecode::CALLTHIS => 24,
            Bytecode::CALLSELF => 25,
            Bytecode::CALLSUPER => 26,
            Bytecode::CALLSELFVIEW => 27,
            Bytecode::CALLSELFPURE => 28,
            Bytecode::____________1d => 29,
            Bytecode::____________1e => 30,
            Bytecode::____________1f => 31,
            Bytecode::PU8 => 32,
            Bytecode::PU16 => 33,
            Bytecode::PBUF => 34,
            Bytecode::PBUFL => 35,
            Bytecode::P0 => 36,
            Bytecode::P1 => 37,
            Bytecode::P2 => 38,
            Bytecode::P3 => 39,
            Bytecode::PNIL => 40,
            Bytecode::PNBUF => 41,
            Bytecode::PTRUE => 42,
            Bytecode::PFALSE => 43,
            Bytecode::____________2c => 44,
            Bytecode::____________2d => 45,
            Bytecode::____________2e => 46,
            Bytecode::____________2f => 47,
            Bytecode::CU8 => 48,
            Bytecode::CU16 => 49,
            Bytecode::CU32 => 50,
            Bytecode::CU64 => 51,
            Bytecode::CU128 => 52,
            Bytecode::____________35 => 53,
            Bytecode::CBYTES => 54,
            Bytecode::CTO => 55,
            Bytecode::TNIL => 56,
            Bytecode::TLIST => 57,
            Bytecode::TMAP => 58,
            Bytecode::TIS => 59,
            Bytecode::TID => 60,
            Bytecode::____________3d => 61,
            Bytecode::____________3e => 62,
            Bytecode::____________3f => 63,
            Bytecode::DUP => 64,
            Bytecode::DUPN => 65,
            Bytecode::POP => 66,
            Bytecode::POPN => 67,
            Bytecode::ROLL0 => 68,
            Bytecode::ROLL => 69,
            Bytecode::SWAP => 70,
            Bytecode::REV => 71,
            Bytecode::CAT => 72,
            Bytecode::JOIN => 73,
            Bytecode::BYTE => 74,
            Bytecode::CUT => 75,
            Bytecode::LEFT => 76,
            Bytecode::RIGHT => 77,
            Bytecode::LDROP => 78,
            Bytecode::RDROP => 79,
            Bytecode::SIZE => 80,
            Bytecode::CHOOSE => 81,
            Bytecode::____________52 => 82,
            Bytecode::____________53 => 83,
            Bytecode::____________54 => 84,
            Bytecode::____________55 => 85,
            Bytecode::____________56 => 86,
            Bytecode::____________57 => 87,
            Bytecode::NEWLIST => 88,
            Bytecode::NEWMAP => 89,
            Bytecode::PACKLIST => 90,
            Bytecode::PACKMAP => 91,
            Bytecode::INSERT => 92,
            Bytecode::REMOVE => 93,
            Bytecode::CLEAR => 94,
            Bytecode::MERGE => 95,
            Bytecode::LENGTH => 96,
            Bytecode::HASKEY => 97,
            Bytecode::ITEMGET => 98,
            Bytecode::KEYS => 99,
            Bytecode::VALUES => 100,
            Bytecode::TAKEFIRST => 101,
            Bytecode::TAKELAST => 102,
            Bytecode::APPEND => 103,
            Bytecode::CLONE => 104,
            Bytecode::UNPACK => 105,
            Bytecode::PACKTUPLE => 106,
            Bytecode::TUPLE2LIST => 107,
            Bytecode::____________6c => 108,
            Bytecode::____________6d => 109,
            Bytecode::____________6e => 110,
            Bytecode::____________6f => 111,
            Bytecode::GPUT => 112,
            Bytecode::GGET => 113,
            Bytecode::MPUT => 114,
            Bytecode::MGET => 115,
            Bytecode::MONCE => 116,
            Bytecode::MTAKE => 117,
            Bytecode::MPATCH => 118,
            Bytecode::____________77 => 119,
            Bytecode::____________78 => 120,
            Bytecode::XLG => 121,
            Bytecode::XOP => 122,
            Bytecode::GET => 123,
            Bytecode::PUT => 124,
            Bytecode::GETX => 125,
            Bytecode::PUTX => 126,
            Bytecode::ALLOC => 127,
            Bytecode::GET0 => 128,
            Bytecode::GET1 => 129,
            Bytecode::GET2 => 130,
            Bytecode::GET3 => 131,
            Bytecode::____________84 => 132,
            Bytecode::____________85 => 133,
            Bytecode::____________86 => 134,
            Bytecode::____________87 => 135,
            Bytecode::____________88 => 136,
            Bytecode::HREADUL => 137,
            Bytecode::HREADU => 138,
            Bytecode::HWRITEXL => 139,
            Bytecode::HWRITEX => 140,
            Bytecode::HREAD => 141,
            Bytecode::HWRITE => 142,
            Bytecode::HGROW => 143,
            Bytecode::LOG1 => 144,
            Bytecode::LOG2 => 145,
            Bytecode::LOG3 => 146,
            Bytecode::LOG4 => 147,
            Bytecode::____________94 => 148,
            Bytecode::____________95 => 149,
            Bytecode::SPUT => 150,
            Bytecode::SGET => 151,
            Bytecode::SSTAT => 152,
            Bytecode::SLOAD => 153,
            Bytecode::SPATCH => 154,
            Bytecode::SEDIT => 155,
            Bytecode::SDEL => 156,
            Bytecode::SNEW => 157,
            Bytecode::SRECV => 158,
            Bytecode::SRENT => 159,
            Bytecode::AND => 160,
            Bytecode::OR => 161,
            Bytecode::EQ => 162,
            Bytecode::NEQ => 163,
            Bytecode::LT => 164,
            Bytecode::GT => 165,
            Bytecode::LE => 166,
            Bytecode::GE => 167,
            Bytecode::NOT => 168,
            Bytecode::____________a9 => 169,
            Bytecode::____________aa => 170,
            Bytecode::BSHR => 171,
            Bytecode::BSHL => 172,
            Bytecode::BXOR => 173,
            Bytecode::BOR => 174,
            Bytecode::BAND => 175,
            Bytecode::ADD => 176,
            Bytecode::SUB => 177,
            Bytecode::MUL => 178,
            Bytecode::DIV => 179,
            Bytecode::MOD => 180,
            Bytecode::POW => 181,
            Bytecode::SQRT => 182,
            Bytecode::SQRTUP => 183,
            Bytecode::MAX => 184,
            Bytecode::MIN => 185,
            Bytecode::CLAMP => 186,
            Bytecode::ABSDIFF => 187,
            Bytecode::INC => 188,
            Bytecode::DEC => 189,
            Bytecode::____________be => 190,
            Bytecode::____________bf => 191,
            Bytecode::ADDMOD => 192,
            Bytecode::MULMOD => 193,
            Bytecode::MULADD => 194,
            Bytecode::MULSUB => 195,
            Bytecode::DIVUP => 196,
            Bytecode::DIVEXACT => 197,
            Bytecode::MULDIV => 198,
            Bytecode::MULDIVUP => 199,
            Bytecode::____________c8 => 200,
            Bytecode::____________c9 => 201,
            Bytecode::FINPOW3 => 202,
            Bytecode::FINP4 => 203,
            Bytecode::FINP3 => 204,
            Bytecode::FIN4 => 205,
            Bytecode::FIN3 => 206,
            Bytecode::FIN2 => 207,
            Bytecode::____________d0 => 208,
            Bytecode::____________d1 => 209,
            Bytecode::____________d2 => 210,
            Bytecode::____________d3 => 211,
            Bytecode::____________d4 => 212,
            Bytecode::____________d5 => 213,
            Bytecode::____________d6 => 214,
            Bytecode::____________d7 => 215,
            Bytecode::____________d8 => 216,
            Bytecode::____________d9 => 217,
            Bytecode::____________da => 218,
            Bytecode::____________db => 219,
            Bytecode::____________dc => 220,
            Bytecode::____________dd => 221,
            Bytecode::____________de => 222,
            Bytecode::____________df => 223,
            Bytecode::JMPL => 224,
            Bytecode::JMPS => 225,
            Bytecode::JMPSL => 226,
            Bytecode::BRL => 227,
            Bytecode::BRS => 228,
            Bytecode::BRSL => 229,
            Bytecode::BRSLN => 230,
            Bytecode::____________e7 => 231,
            Bytecode::____________e8 => 232,
            Bytecode::____________e9 => 233,
            Bytecode::PRT => 234,
            Bytecode::AST => 235,
            Bytecode::ERR => 236,
            Bytecode::ABT => 237,
            Bytecode::RET => 238,
            Bytecode::END => 239,
            Bytecode::IRBYTECODE => 240,
            Bytecode::IRLIST => 241,
            Bytecode::IRBLOCK => 242,
            Bytecode::IRBLOCKR => 243,
            Bytecode::IRIF => 244,
            Bytecode::IRIFR => 245,
            Bytecode::IRWHILE => 246,
            Bytecode::IRBREAK => 247,
            Bytecode::IRCONTINUE => 248,
            Bytecode::____________f9 => 249,
            Bytecode::____________fa => 250,
            Bytecode::____________fb => 251,
            Bytecode::____________fc => 252,
            Bytecode::BURN => 253,
            Bytecode::NOP => 254,
            Bytecode::NT => 255,
        }
    }

    /// The opcode slot of any byte; total, reserved slots included.
    pub fn from_byte(v: u8) -> (r: Bytecode)
        ensures
            r == spec_from_byte(v),
    {
        match v {
            0 => Bytecode::ACTION,
            1 => Bytecode::____________01,
            2 => Bytecode::____________02,
            3 => Bytecode::____________03,
            4 => Bytecode::____________04,
            5 => Bytecode::____________05,
            6 => Bytecode::ACTVIEW,
            7 => Bytecode::ACTENV,
            8 => Bytecode::NTENV,
            9 => Bytecode::NTCTL,
            10 => Bytecode::NTFUNC,
            11 => Bytecode::____________0b,
            12 => Bytecode::____________0c,
            13 => Bytecode::____________0d,
            14 => Bytecode::____________0e,
            15 => Bytecode::____________0f,
            16 => Bytecode::____________10,
            17 => Bytecode::____________11,
            18 => Bytecode::CODE_CALL,
            19 => Bytecode::CALL,
            20 => Bytecode::CALLEXT,
            21 => Bytecode::CALLEXTVIEW,
            22 => Bytecode::CALLUSEVIEW,
            23 => Bytecode::CALLUSEPURE,
            24 => Bytecode::CALLTHIS,
            25 => Bytecode::CALLSELF,
            26 => Bytecode::CALLSUPER,
            27 => Bytecode::CALLSELFVIEW,
            28 => Bytecode::CALLSELFPURE,
            29 => Bytecode::____________1d,
            30 => Bytecode::____________1e,
            31 => Bytecode::____________1f,
            32 => Bytecode::PU8,
            33 => Bytecode::PU16,
            34 => Bytecode::PBUF,
            35 => Bytecode::PBUFL,
            36 => Bytecode::P0,
            37 => Bytecode::P1,
            38 => Bytecode::P2,
            39 => Bytecode::P3,
            40 => Bytecode::PNIL,
            41 => Bytecode::PNBUF,
            42 => Bytecode::PTRUE,
            43 => Bytecode::PFALSE,
            44 => Bytecode::____________2c,
            45 => Bytecode::____________2d,
            46 => Bytecode::____________2e,
            47 => Bytecode::____________2f,
            48 => Bytecode::CU8,
            49 => Bytecode::CU16,
            50 => Bytecode::CU32,
            51 => Bytecode::CU64,
            52 => Bytecode::CU128,
            53 => Bytecode::____________35,
            54 => Bytecode::CBYTES,
            55 => Bytecode::CTO,
            56 => Bytecode::TNIL,
            57 => Bytecode::TLIST,
            58 => Bytecode::TMAP,
            59 => Bytecode::TIS,
            60 => Bytecode::TID,
            61 => Bytecode::____________3d,
            62 => Bytecode::____________3e,
            63 => Bytecode::____________3f,
            64 => Bytecode::DUP,
            65 => Bytecode::DUPN,
            66 => Bytecode::POP,
            67 => Bytecode::POPN,
            68 => Bytecode::ROLL0,
            69 => Bytecode::ROLL,
            70 => Bytecode::SWAP,
            71 => Bytecode::REV,
            72 => Bytecode::CAT,
            73 => Bytecode::JOIN,
            74 => Bytecode::BYTE,
            75 => Bytecode::CUT,
            76 => Bytecode::LEFT,
            77 => Bytecode::RIGHT,
            78 => Bytecode::LDROP,
            79 => Bytecode::RDROP,
            80 => Bytecode::SIZE,
            81 => Bytecode::CHOOSE,
            82 => Bytecode::____________52,
            83 => Bytecode::____________53,
            84 => Bytecode::____________54,
            85 => Bytecode::____________55,
            86 => Bytecode::____________56,
            87 => Bytecode::____________57,
            88 => Bytecode::NEWLIST,
            89 => Bytecode::NEWMAP,
            90 => Bytecode::PACKLIST,
            91 => Bytecode::PACKMAP,
            92 => Bytecode::INSERT,
            93 => Bytecode::REMOVE,
            94 => Bytecode::CLEAR,
            95 => Bytecode::MERGE,
            96 => Bytecode::LENGTH,
            97 => Bytecode::HASKEY,
            98 => Bytecode::ITEMGET,
            99 => Bytecode::KEYS,
            100 => Bytecode::VALUES,
            101 => Bytecode::TAKEFIRST,
            102 => Bytecode::TAKELAST,
            103 => Bytecode::APPEND,
            104 => Bytecode::CLONE,
            105 => Bytecode::UNPACK,
            106 => Bytecode::PACKTUPLE,
            107 => Bytecode::TUPLE2LIST,
            108 => Bytecode::____________6c,
            109 => Bytecode::____________6d,
            110 => Bytecode::____________6e,
            111 => Bytecode::____________6f,
            112 => Bytecode::GPUT,
            113 => Bytecode::GGET,
            114 => Bytecode::MPUT,
            115 => Bytecode::MGET,
            116 => Bytecode::MONCE,
            117 => Bytecode::MTAKE,
            118 => Bytecode::MPATCH,
            119 => Bytecode::____________77,
            120 => Bytecode::____________78,
            121 => Bytecode::XLG,
            122 => Bytecode::XOP,
            123 => Bytecode::GET,
            124 => Bytecode::PUT,
            125 => Bytecode::GETX,
            126 => Bytecode::PUTX,
            127 => Bytecode::ALLOC,
            128 => Bytecode::GET0,
            129 => Bytecode::GET1,
            130 => Bytecode::GET2,
            131 => Bytecode::GET3,
            132 => Bytecode::____________84,
            133 => Bytecode::____________85,
            134 => Bytecode::____________86,
            135 => Bytecode::____________87,
            136 => Bytecode::____________88,
            137 => Bytecode::HREADUL,
            138 => Bytecode::HREADU,
            139 => Bytecode::HWRITEXL,
            140 => Bytecode::HWRITEX,
            141 => Bytecode::HREAD,
            142 => Bytecode::HWRITE,
            143 => Bytecode::HGROW,
            144 => Bytecode::LOG1,
            145 => Bytecode::LOG2,
            146 => Bytecode::LOG3,
            147 => Bytecode::LOG4,
            148 => Bytecode::____________94,
            149 => Bytecode::____________95,
            150 => Bytecode::SPUT,
            151 => Bytecode::SGET,
            152 => Bytecode::SSTAT,
            153 => Bytecode::SLOAD,
            154 => Bytecode::SPATCH,
            155 => Bytecode::SEDIT,
            156 => Bytecode::SDEL,
            157 => Bytecode::SNEW,
            158 => Bytecode::SRECV,
            159 => Bytecode::SRENT,
            160 => Bytecode::AND,
            161 => Bytecode::OR,
            162 => Bytecode::EQ,
            163 => Bytecode::NEQ,
            164 => Bytecode::LT,
            165 => Bytecode::GT,
            166 => Bytecode::LE,
            167 => Bytecode::GE,
            168 => Bytecode::NOT,
            169 => Bytecode::____________a9,
            170 => Bytecode::____________aa,
            171 => Bytecode::BSHR,
            172 => Bytecode::BSHL,
            173 => Bytecode::BXOR,
            174 => Bytecode::BOR,
            175 => Bytecode::BAND,
            176 => Bytecode::ADD,
            177 => Bytecode::SUB,
            178 => Bytecode::MUL,
            179 => Bytecode::DIV,
            180 => Bytecode::MOD,
            181 => Bytecode::POW,
            182 => Bytecode::SQRT,
            183 => Bytecode::SQRTUP,
            184 => Bytecode::MAX,
            185 => Bytecode::MIN,
            186 => Bytecode::CLAMP,
            187 => Bytecode::ABSDIFF,
            188 => Bytecode::INC,
            189 => Bytecode::DEC,
            190 => Bytecode::____________be,
            191 => Bytecode::____________bf,
            192 => Bytecode::ADDMOD,
            193 => Bytecode::MULMOD,
            194 => Bytecode::MULADD,
            195 => Bytecode::MULSUB,
            196 => Bytecode::DIVUP,
            197 => Bytecode::DIVEXACT,
            198 => Bytecode::MULDIV,
            199 => Bytecode::MULDIVUP,
            200 => Bytecode::____________c8,
            201 => Bytecode::____________c9,
            202 => Bytecode::FINPOW3,
            203 => Bytecode::FINP4,
            204 => Bytecode::FINP3,
            205 => Bytecode::FIN4,
            206 => Bytecode::FIN3,
            207 => Bytecode::FIN2,
            208 => Bytecode::____________d0,
            209 => Bytecode::____________d1,
            210 => Bytecode::____________d2,
            211 => Bytecode::____________d3,
            212 => Bytecode::____________d4,
            213 => Bytecode::____________d5,
            214 => Bytecode::____________d6,
            215 => Bytecode::____________d7,
            216 => Bytecode::____________d8,
            217 => Bytecode::____________d9,
            218 => Bytecode::____________da,
            219 => Bytecode::____________db,
            220 => Bytecode::____________dc,
            221 => Bytecode::____________dd,
            222 => Bytecode::____________de,
            223 => Bytecode::____________df,
            224 => Bytecode::JMPL,
            225 => Bytecode::JMPS,
            226 => Bytecode::JMPSL,
            227 => Bytecode::BRL,
            228 => Bytecode::BRS,
            229 => Bytecode::BRSL,
            230 => Bytecode::BRSLN,
            231 => Bytecode::____________e7,
            232 => Bytecode::____________e8,
            233 => Bytecode::____________e9,
            234 => Bytecode::PRT,
            235 => Bytecode::AST,
            236 => Bytecode::ERR,
            237 => Bytecode::ABT,
            238 => Bytecode::RET,
            239 => Bytecode::END,
            240 => Bytecode::IRBYTECODE,
            241 => Bytecode::IRLIST,
            242 => Bytecode::IRBLOCK,
            243 => Bytecode::IRBLOCKR,
            244 => Bytecode::IRIF,
            245 => Bytecode::IRIFR,
            246 => Bytecode::IRWHILE,
            247 => Bytecode::IRBREAK,
            248 => Bytecode::IRCONTINUE,
            249 => Bytecode::____________f9,
            250 => Bytecode::____________fa,
            251 => Bytecode::____________fb,
            252 => Bytecode::____________fc,
            253 => Bytecode::BURN,
            254 => Bytecode::NOP,
            _ => Bytecode::NT,
        }
    }

    /// The static description of this opcode.
    pub fn metadata(&self) -> (r: BytecodeMetadata)
        ensures
            (r.valid, r.param, r.input, r.output) == spec_meta(spec_byte(*self)),
            r.intro@ == spec_intro(spec_byte(*self)),
    {
        match self {
            Bytecode::ACTION => BytecodeMetadata { valid: true, param: 1, input: 1, output: 0, intro: "action" },
            Bytecode::ACTVIEW => BytecodeMetadata { valid: true, param: 1, input: 1, output: 1, intro: "actview" },
            Bytecode::ACTENV => BytecodeMetadata { valid: true, param: 1, input: 0, output: 1, intro: "actenv" },
            Bytecode::NTENV => BytecodeMetadata { valid: true, param: 1, input: 0, output: 1, intro: "native_env" },
            Bytecode::NTCTL => BytecodeMetadata { valid: true, param: 1, input: 1, output: 1, intro: "native_ctl" },
            Bytecode::NTFUNC => BytecodeMetadata { valid: true, param: 1, input: 1, output: 1, intro: "native_func" },
            Bytecode::CODE_CALL => BytecodeMetadata { valid: true, param: 5, input: 1, output: 0, intro: "code_call" },
            Bytecode::CALL => BytecodeMetadata { valid: true, param: 6, input: 1, output: 1, intro: "call" },
            Bytecode::CALLEXT => BytecodeMetadata { valid: true, param: 5, input: 1, output: 1, intro: "callext" },
            Bytecode::CALLEXTVIEW => BytecodeMetadata { valid: true, param: 5, input: 1, output: 1, intro: "callextview" },
            Bytecode::CALLUSEVIEW => BytecodeMetadata { valid: true, param: 5, input: 1, output: 1, intro: "calluseview" },
            Bytecode::CALLUSEPURE => BytecodeMetadata { valid: true, param: 5, input: 1, output: 1, intro: "callusepure" },
            Bytecode::CALLTHIS => BytecodeMetadata { valid: true, param: 4, input: 1, output: 1, intro: "callthis" },
            Bytecode::CALLSELF => BytecodeMetadata { valid: true, param: 4, input: 1, output: 1, intro: "callself" },
            Bytecode::CALLSUPER => BytecodeMetadata { valid: true, param: 4, input: 1, output: 1, intro: "callsuper" },
            Bytecode::CALLSELFVIEW => BytecodeMetadata { valid: true, param: 4, input: 1, output: 1, intro: "callselfview" },
            Bytecode::CALLSELFPURE => BytecodeMetadata { valid: true, param: 4, input: 1, output: 1, intro: "callselfpure" },
            Bytecode::PU8 => BytecodeMetadata { valid: true, param: 1, input: 0, output: 1, intro: "push_u8" },
            Bytecode::PU16 => BytecodeMetadata { valid: true, param: 2, input: 0, output: 1, intro: "push_u16" },
            Bytecode::PBUF => BytecodeMetadata { valid: true, param: 1, input: 0, output: 1, intro: "push_buf" },
            Bytecode::PBUFL => BytecodeMetadata { valid: true, param: 2, input: 0, output: 1, intro: "push_buf_long" },
            Bytecode::P0 => BytecodeMetadata { valid: true, param: 0, input: 0, output: 1, intro: "push_0" },
            Bytecode::P1 => BytecodeMetadata { valid: true, param: 0, input: 0, output: 1, intro: "push_1" },
            Bytecode::P2 => BytecodeMetadata { valid: true, param: 0, input: 0, output: 1, intro: "push_2" },
            Bytecode::P3 => BytecodeMetadata { valid: true, param: 0, input: 0, output: 1, intro: "push_3" },
            Bytecode::PNIL => BytecodeMetadata { valid: true, param: 0, input: 0, output: 1, intro: "push_nil" },
            Bytecode::PNBUF => BytecodeMetadata { valid: true, param: 0, input: 0, output: 1, intro: "push_empty_buf" },
            Bytecode::PTRUE => BytecodeMetadata { valid: true, param: 0, input: 0, output: 1, intro: "push_true" },
            Bytecode::PFALSE => BytecodeMetadata { valid: true, param: 0, input: 0, output: 1, intro: "push_false" },
            Bytecode::CU8 => BytecodeMetadata { valid: true, param: 0, input: 1, output: 1, intro: "cast_u8" },
            Bytecode::CU16 => BytecodeMetadata { valid: true, param: 0, input: 1, output: 1, intro: "cast_u16" },
            Bytecode::CU32 => BytecodeMetadata { valid: true, param: 0, input: 1, output: 1, intro: "cast_u32" },
            Bytecode::CU64 => BytecodeMetadata { valid: true, param: 0, input: 1, output: 1, intro: "cast_u64" },
            Bytecode::CU128 => BytecodeMetadata { valid: true, param: 0, input: 1, output: 1, intro: "cast_u128" },
            Bytecode::CBYTES => BytecodeMetadata { valid: true, param: 0, input: 1, output: 1, intro: "cast_bytes" },
            Bytecode::CTO => BytecodeMetadata { valid: true, param: 1, input: 1, output: 1, intro: "cast_to" },
            Bytecode::TNIL => BytecodeMetadata { valid: true, param: 0, input: 1, output: 1, intro: "type_is_nil" },
            Bytecode::TLIST => BytecodeMetadata { valid: true, param: 0, input: 1, output: 1, intro: "type_is_list" },
            Bytecode::TMAP => BytecodeMetadata { valid: true, param: 0, input: 1, output: 1, intro: "type_is_map" },
            Bytecode::TIS => BytecodeMetadata { valid: true, param: 1, input: 1, output: 1, intro: "type_is" },
            Bytecode::TID => BytecodeMetadata { valid: true, param: 0, input: 1, output: 1, intro: "type_id" },
            Bytecode::DUP => BytecodeMetadata { valid: true, param: 0, input: 0, output: 1, intro: "dump" },
            Bytecode::DUPN => BytecodeMetadata { valid: true, param: 1, input: 0, output: 255, intro: "dump_n" },
            Bytecode::POP => BytecodeMetadata { valid: true, param: 0, input: 255, output: 0, intro: "pop" },
            Bytecode::POPN => BytecodeMetadata { valid: true, param: 1, input: 255, output: 0, intro: "pop_n" },
            Bytecode::ROLL0 => BytecodeMetadata { valid: true, param: 0, input: 0, output: 1, intro: "roll_0" },
            Bytecode::ROLL => BytecodeMetadata { valid: true, param: 1, input: 0, output: 1, intro: "roll" },
            Bytecode::SWAP => BytecodeMetadata { valid: true, param: 0, input: 2, output: 2, intro: "swap" },
            Bytecode::REV => BytecodeMetadata { valid: true, param: 1, input: 255, output: 255, intro: "reverse" },
            Bytecode::CAT => BytecodeMetadata { valid: true, param: 0, input: 2, output: 1, intro: "concat" },
            Bytecode::JOIN => BytecodeMetadata { valid: true, param: 1, input: 255, output: 1, intro: "join" },
            Bytecode::BYTE => BytecodeMetadata { valid: true, param: 0, input: 2, output: 1, intro: "byte" },
            Bytecode::CUT => BytecodeMetadata { valid: true, param: 0, input: 3, output: 1, intro: "buf_cut" },
            Bytecode::LEFT => BytecodeMetadata { valid: true, param: 1, input: 1, output: 1, intro: "buf_left" },
            Bytecode::RIGHT => BytecodeMetadata { valid: true, param: 1, input: 1, output: 1, intro: "buf_right" },
            Bytecode::LDROP => BytecodeMetadata { valid: true, param: 1, input: 1, output: 1, intro: "buf_left_drop" },
            Bytecode::RDROP => BytecodeMetadata { valid: true, param: 1, input: 1, output: 1, intro: "buf_right_drop" },
            Bytecode::SIZE => BytecodeMetadata { valid: true, param: 0, input: 1, output: 1, intro: "size" },
            Bytecode::CHOOSE => BytecodeMetadata { valid: true, param: 0, input: 3, output: 1, intro: "choose" },
            Bytecode::NEWLIST => BytecodeMetadata { valid: true, param: 0, input: 0, output: 1, intro: "new_list" },
            Bytecode::NEWMAP => BytecodeMetadata { valid: true, param: 0, input: 0, output: 1, intro: "new_map" },
            Bytecode::PACKLIST => BytecodeMetadata { valid: true, param: 0, input: 255, output: 1, intro: "pack_list" },
            Bytecode::PACKMAP => BytecodeMetadata { valid: true, param: 0, input: 255, output: 1, intro: "pack_map" },
            Bytecode::INSERT => BytecodeMetadata { valid: true, param: 0, input: 3, output: 1, intro: "insert" },
            Bytecode::REMOVE => BytecodeMetadata { valid: true, param: 0, input: 2, output: 1, intro: "remove" },
            Bytecode::CLEAR => BytecodeMetadata { valid: true, param: 0, input: 1, output: 1, intro: "clear" },
            Bytecode::MERGE => BytecodeMetadata { valid: true, param: 0, input: 2, output: 1, intro: "merge" },
            Bytecode::LENGTH => BytecodeMetadata { valid: true, param: 0, input: 1, output: 1, intro: "length" },
            Bytecode::HASKEY => BytecodeMetadata { valid: true, param: 0, input: 2, output: 1, intro: "has_key" },
            Bytecode::ITEMGET => BytecodeMetadata { valid: true, param: 0, input: 2, output: 1, intro: "item_get" },
            Bytecode::KEYS => BytecodeMetadata { valid: true, param: 0, input: 1, output: 1, intro: "keys" },
            Bytecode::VALUES => BytecodeMetadata { valid: true, param: 0, input: 1, output: 1, intro: "values" },
            Bytecode::TAKEFIRST => BytecodeMetadata { valid: true, param: 0, input: 1, output: 1, intro: "take_first" },
            Bytecode::TAKELAST => BytecodeMetadata { valid: true, param: 0, input: 1, output: 1, intro: "take_last" },
            Bytecode::APPEND => BytecodeMetadata { valid: true, param: 0, input: 2, output: 1, intro: "append" },
            Bytecode::CLONE => BytecodeMetadata { valid: true, param: 0, input: 1, output: 1, intro: "clone" },
            Bytecode::UNPACK => BytecodeMetadata { valid: true, param: 0, input: 2, output: 0, intro: "unpack" },
            Bytecode::PACKTUPLE => BytecodeMetadata { valid: true, param: 0, input: 255, output: 1, intro: "pack_tuple" },
            Bytecode::TUPLE2LIST => BytecodeMetadata { valid: true, param: 0, input: 1, output: 1, intro: "tuple_to_list" },
            Bytecode::GPUT => BytecodeMetadata { valid: true, param: 0, input: 2, output: 0, intro: "global_put" },
            Bytecode::GGET => BytecodeMetadata { valid: true, param: 0, input: 1, output: 1, intro: "global_get" },
            Bytecode::MPUT => BytecodeMetadata { valid: true, param: 0, input: 2, output: 0, intro: "memory_put" },
            Bytecode::MGET => BytecodeMetadata { valid: true, param: 0, input: 1, output: 1, intro: "memory_get" },
            Bytecode::MONCE => BytecodeMetadata { valid: true, param: 0, input: 2, output: 0, intro: "memory_once" },
            Bytecode::MTAKE => BytecodeMetadata { valid: true, param: 0, input: 1, output: 1, intro: "memory_take" },
            Bytecode::MPATCH => BytecodeMetadata { valid: true, param: 0, input: 3, output: 1, intro: "memory_patch" },
            Bytecode::XLG => BytecodeMetadata { valid: true, param: 1, input: 1, output: 1, intro: "local_logic" },
            Bytecode::XOP => BytecodeMetadata { valid: true, param: 1, input: 1, output: 0, intro: "local_operand" },
            Bytecode::GET => BytecodeMetadata { valid: true, param: 1, input: 0, output: 1, intro: "local" },
            Bytecode::PUT => BytecodeMetadata { valid: true, param: 1, input: 1, output: 0, intro: "local_put" },
            Bytecode::GETX => BytecodeMetadata { valid: true, param: 0, input: 1, output: 1, intro: "local_x" },
            Bytecode::PUTX => BytecodeMetadata { valid: true, param: 0, input: 2, output: 0, intro: "local_x_put" },
            Bytecode::ALLOC => BytecodeMetadata { valid: true, param: 1, input: 0, output: 0, intro: "local_alloc" },
            Bytecode::GET0 => BytecodeMetadata { valid: true, param: 0, input: 0, output: 1, intro: "local_0" },
            Bytecode::GET1 => BytecodeMetadata { valid: true, param: 0, input: 0, output: 1, intro: "local_1" },
            Bytecode::GET2 => BytecodeMetadata { valid: true, param: 0, input: 0, output: 1, intro: "local_2" },
            Bytecode::GET3 => BytecodeMetadata { valid: true, param: 0, input: 0, output: 1, intro: "local_3" },
            Bytecode::HREADUL => BytecodeMetadata { valid: true, param: 2, input: 0, output: 1, intro: "heap_read_uint_long" },
            Bytecode::HREADU => BytecodeMetadata { valid: true, param: 1, input: 0, output: 1, intro: "heap_read_uint" },
            Bytecode::HWRITEXL => BytecodeMetadata { valid: true, param: 2, input: 1, output: 0, intro: "heap_write_xl" },
            Bytecode::HWRITEX => BytecodeMetadata { valid: true, param: 1, input: 1, output: 0, intro: "heap_write_x" },
            Bytecode::HREAD => BytecodeMetadata { valid: true, param: 0, input: 2, output: 1, intro: "heap_read" },
            Bytecode::HWRITE => BytecodeMetadata { valid: true, param: 0, input: 2, output: 0, intro: "heap_write" },
            Bytecode::HGROW => BytecodeMetadata { valid: true, param: 1, input: 0, output: 0, intro: "heap_grow" },
            Bytecode::LOG1 => BytecodeMetadata { valid: true, param: 0, input: 2, output: 0, intro: "log_1" },
            Bytecode::LOG2 => BytecodeMetadata { valid: true, param: 0, input: 3, output: 0, intro: "log_2" },
            Bytecode::LOG3 => BytecodeMetadata { valid: true, param: 0, input: 4, output: 0, intro: "log_3" },
            Bytecode::LOG4 => BytecodeMetadata { valid: true, param: 0, input: 5, output: 0, intro: "log_4" },
            Bytecode::SPUT => BytecodeMetadata { valid: true, param: 0, input: 2, output: 0, intro: "status_put" },
            Bytecode::SGET => BytecodeMetadata { valid: true, param: 0, input: 1, output: 1, intro: "status_get" },
            Bytecode::SSTAT => BytecodeMetadata { valid: true, param: 0, input: 1, output: 1, intro: "storage_stat" },
            Bytecode::SLOAD => BytecodeMetadata { valid: true, param: 0, input: 1, output: 1, intro: "storage_load" },
            Bytecode::SPATCH => BytecodeMetadata { valid: true, param: 0, input: 3, output: 1, intro: "storage_patch" },
            Bytecode::SEDIT => BytecodeMetadata { valid: true, param: 0, input: 2, output: 0, intro: "storage_edit" },
            Bytecode::SDEL => BytecodeMetadata { valid: true, param: 0, input: 1, output: 0, intro: "storage_del" },
            Bytecode::SNEW => BytecodeMetadata { valid: true, param: 0, input: 3, output: 0, intro: "storage_new" },
            Bytecode::SRECV => BytecodeMetadata { valid: true, param: 0, input: 2, output: 0, intro: "storage_recv" },
            Bytecode::SRENT => BytecodeMetadata { valid: true, param: 0, input: 2, output: 0, intro: "storage_rent" },
            Bytecode::AND => BytecodeMetadata { valid: true, param: 0, input: 2, output: 1, intro: "and" },
            Bytecode::OR => BytecodeMetadata { valid: true, param: 0, input: 2, output: 1, intro: "or" },
            Bytecode::EQ => BytecodeMetadata { valid: true, param: 0, input: 2, output: 1, intro: "equal" },
            Bytecode::NEQ => BytecodeMetadata { valid: true, param: 0, input: 2, output: 1, intro: "not_equal" },
            Bytecode::LT => BytecodeMetadata { valid: true, param: 0, input: 2, output: 1, intro: "less_than" },
            Bytecode::GT => BytecodeMetadata { valid: true, param: 0, input: 2, output: 1, intro: "greater_than" },
            Bytecode::LE => BytecodeMetadata { valid: true, param: 0, input: 2, output: 1, intro: "less_equal" },
            Bytecode::GE => BytecodeMetadata { valid: true, param: 0, input: 2, output: 1, intro: "greater_equal" },
            Bytecode::NOT => BytecodeMetadata { valid: true, param: 0, input: 1, output: 1, intro: "not" },
            Bytecode::BSHR => BytecodeMetadata { valid: true, param: 0, input: 2, output: 1, intro: "bit_shr" },
            Bytecode::BSHL => BytecodeMetadata { valid: true, param: 0, input: 2, output: 1, intro: "bit_shl" },
            Bytecode::BXOR => BytecodeMetadata { valid: true, param: 0, input: 2, output: 1, intro: "bit_xor" },
            Bytecode::BOR => BytecodeMetadata { valid: true, param: 0, input: 2, output: 1, intro: "bit_or" },
            Bytecode::BAND => BytecodeMetadata { valid: true, param: 0, input: 2, output: 1, intro: "bit_and" },
            Bytecode::ADD => BytecodeMetadata { valid: true, param: 0, input: 2, output: 1, intro: "add" },
            Bytecode::SUB => BytecodeMetadata { valid: true, param: 0, input: 2, output: 1, intro: "sub" },
            Bytecode::MUL => BytecodeMetadata { valid: true, param: 0, input: 2, output: 1, intro: "mul" },
            Bytecode::DIV => BytecodeMetadata { valid: true, param: 0, input: 2, output: 1, intro: "div" },
            Bytecode::MOD => BytecodeMetadata { valid: true, param: 0, input: 2, output: 1, intro: "mod" },
            Bytecode::POW => BytecodeMetadata { valid: true, param: 0, input: 2, output: 1, intro: "pow" },
            Bytecode::SQRT => BytecodeMetadata { valid: true, param: 0, input: 1, output: 1, intro: "sqrt" },
            Bytecode::SQRTUP => BytecodeMetadata { valid: true, param: 0, input: 1, output: 1, intro: "sqrt_up" },
            Bytecode::MAX => BytecodeMetadata { valid: true, param: 0, input: 2, output: 1, intro: "max" },
            Bytecode::MIN => BytecodeMetadata { valid: true, param: 0, input: 2, output: 1, intro: "min" },
            Bytecode::CLAMP => BytecodeMetadata { valid: true, param: 0, input: 3, output: 1, intro: "clamp" },
            Bytecode::ABSDIFF => BytecodeMetadata { valid: true, param: 0, input: 2, output: 1, intro: "abs_diff" },
            Bytecode::INC => BytecodeMetadata { valid: true, param: 1, input: 1, output: 1, intro: "increase" },
            Bytecode::DEC => BytecodeMetadata { valid: true, param: 1, input: 1, output: 1, intro: "decrease" },
            Bytecode::ADDMOD => BytecodeMetadata { valid: true, param: 0, input: 3, output: 1, intro: "add_mod" },
            Bytecode::MULMOD => BytecodeMetadata { valid: true, param: 0, input: 3, output: 1, intro: "mul_mod" },
            Bytecode::MULADD => BytecodeMetadata { valid: true, param: 0, input: 3, output: 1, intro: "mul_add" },
            Bytecode::MULSUB => BytecodeMetadata { valid: true, param: 0, input: 3, output: 1, intro: "mul_sub" },
            Bytecode::DIVUP => BytecodeMetadata { valid: true, param: 0, input: 2, output: 1, intro: "div_up" },
            Bytecode::DIVEXACT => BytecodeMetadata { valid: true, param: 0, input: 2, output: 1, intro: "div_exact_op" },
            Bytecode::MULDIV => BytecodeMetadata { valid: true, param: 0, input: 3, output: 1, intro: "mul_div" },
            Bytecode::MULDIVUP => BytecodeMetadata { valid: true, param: 0, input: 3, output: 1, intro: "mul_div_up" },
            Bytecode::FINPOW3 => BytecodeMetadata { valid: true, param: 1, input: 3, output: 1, intro: "fin_pow3" },
            Bytecode::FINP4 => BytecodeMetadata { valid: true, param: 1, input: 4, output: 1, intro: "fin_p4" },
            Bytecode::FINP3 => BytecodeMetadata { valid: true, param: 1, input: 3, output: 1, intro: "fin_p3" },
            Bytecode::FIN4 => BytecodeMetadata { valid: true, param: 1, input: 4, output: 1, intro: "fin_4" },
            Bytecode::FIN3 => BytecodeMetadata { valid: true, param: 1, input: 3, output: 1, intro: "fin_3" },
            Bytecode::FIN2 => BytecodeMetadata { valid: true, param: 1, input: 2, output: 1, intro: "fin_2" },
            Bytecode::JMPL => BytecodeMetadata { valid: true, param: 2, input: 0, output: 0, intro: "jump_long" },
            Bytecode::JMPS => BytecodeMetadata { valid: true, param: 1, input: 0, output: 0, intro: "jump_offset" },
            Bytecode::JMPSL => BytecodeMetadata { valid: true, param: 2, input: 0, output: 0, intro: "jump_offset_long" },
            Bytecode::BRL => BytecodeMetadata { valid: true, param: 2, input: 1, output: 0, intro: "branch_long" },
            Bytecode::BRS => BytecodeMetadata { valid: true, param: 1, input: 1, output: 0, intro: "branch_offset" },
            Bytecode::BRSL => BytecodeMetadata { valid: true, param: 2, input: 1, output: 0, intro: "branch_offset_long" },
            Bytecode::BRSLN => BytecodeMetadata { valid: true, param: 2, input: 1, output: 0, intro: "branch_offset_long_not" },
            Bytecode::PRT => BytecodeMetadata { valid: true, param: 0, input: 1, output: 0, intro: "print" },
            Bytecode::AST => BytecodeMetadata { valid: true, param: 0, input: 1, output: 0, intro: "assert" },
            Bytecode::ERR => BytecodeMetadata { valid: true, param: 0, input: 1, output: 0, intro: "throw" },
            Bytecode::ABT => BytecodeMetadata { valid: true, param: 0, input: 0, output: 0, intro: "abort" },
            Bytecode::RET => BytecodeMetadata { valid: true, param: 0, input: 1, output: 0, intro: "return" },
            Bytecode::END => BytecodeMetadata { valid: true, param: 0, input: 0, output: 0, intro: "end" },
            Bytecode::IRBYTECODE => BytecodeMetadata { valid: true, param: 2, input: 255, output: 0, intro: "ir_bytecode" },
            Bytecode::IRLIST => BytecodeMetadata { valid: true, param: 2, input: 255, output: 1, intro: "ir_list" },
            Bytecode::IRBLOCK => BytecodeMetadata { valid: true, param: 2, input: 255, output: 0, intro: "ir_block" },
            Bytecode::IRBLOCKR => BytecodeMetadata { valid: true, param: 2, input: 255, output: 1, intro: "ir_block_expr" },
            Bytecode::IRIF => BytecodeMetadata { valid: true, param: 0, input: 3, output: 0, intro: "ir_if" },
            Bytecode::IRIFR => BytecodeMetadata { valid: true, param: 0, input: 3, output: 1, intro: "ir_if_expr" },
            Bytecode::IRWHILE => BytecodeMetadata { valid: true, param: 0, input: 2, output: 0, intro: "ir_while" },
            Bytecode::IRBREAK => BytecodeMetadata { valid: true, param: 0, input: 0, output: 0, intro: "ir_break" },
            Bytecode::IRCONTINUE => BytecodeMetadata { valid: true, param: 0, input: 0, output: 0, intro: "ir_continue" },
            Bytecode::BURN => BytecodeMetadata { valid: true, param: 2, input: 0, output: 0, intro: "gas_burn" },
            Bytecode::NOP => BytecodeMetadata { valid: true, param: 0, input: 0, output: 0, intro: "nop" },
            Bytecode::NT => BytecodeMetadata { valid: true, param: 0, input: 0, output: 0, intro: "never_touch" },
            _ => BytecodeMetadata { valid: false, param: 0, input: 0, output: 0, intro: "" },
        }
    }

    /// The opcode with the given mnemonic, if any.
    pub fn parse(s: &str) -> (r: Option<Bytecode>)
        ensures
            r == spec_parse_name(s@),
    {
        if str_eq(s, "ACTION") {
            Some(Bytecode::ACTION)
        } else if str_eq(s, "ACTVIEW") {
            Some(Bytecode::ACTVIEW)
        } else if str_eq(s, "ACTENV") {
            Some(Bytecode::ACTENV)
        } else if str_eq(s, "NTENV") {
            Some(Bytecode::NTENV)
        } else if str_eq(s, "NTCTL") {
            Some(Bytecode::NTCTL)
        } else if str_eq(s, "NTFUNC") {
            Some(Bytecode::NTFUNC)
        } else if str_eq(s, "CODE_CALL") {
            Some(Bytecode::CODE_CALL)
        } else if str_eq(s, "CALL") {
            Some(Bytecode::CALL)
        } else if str_eq(s, "CALLEXT") {
            Some(Bytecode::CALLEXT)
        } else if str_eq(s, "CALLEXTVIEW") {
            Some(Bytecode::CALLEXTVIEW)
        } else if str_eq(s, "CALLUSEVIEW") {
            Some(Bytecode::CALLUSEVIEW)
        } else if str_eq(s, "CALLUSEPURE") {
            Some(Bytecode::CALLUSEPURE)
        } else if str_eq(s, "CALLTHIS") {
            Some(Bytecode::CALLTHIS)
        } else if str_eq(s, "CALLSELF") {
            Some(Bytecode::CALLSELF)
        } else if str_eq(s, "CALLSUPER") {
            Some(Bytecode::CALLSUPER)
        } else if str_eq(s, "CALLSELFVIEW") {
            Some(Bytecode::CALLSELFVIEW)
        } else if str_eq(s, "CALLSELFPURE") {
            Some(Bytecode::CALLSELFPURE)
        } else if str_eq(s, "PU8") {
            Some(Bytecode::PU8)
        } else if str_eq(s, "PU16") {
            Some(Bytecode::PU16)
        } else if str_eq(s, "PBUF") {
            Some(Bytecode::PBUF)
        } else if str_eq(s, "PBUFL") {
            Some(Bytecode::PBUFL)
        } else if str_eq(s, "P0") {
            Some(Bytecode::P0)
        } else if str_eq(s, "P1") {
            Some(Bytecode::P1)
        } else if str_eq(s, "P2") {
            Some(Bytecode::P2)
        } else if str_eq(s, "P3") {
            Some(Bytecode::P3)
        } else if str_eq(s, "PNIL") {
            Some(Bytecode::PNIL)
        } else if str_eq(s, "PNBUF") {
            Some(Bytecode::PNBUF)
        } else if str_eq(s, "PTRUE") {
            Some(Bytecode::PTRUE)
        } else if str_eq(s, "PFALSE") {
            Some(Bytecode::PFALSE)
        } else if str_eq(s, "CU8") {
            Some(Bytecode::CU8)
        } else if str_eq(s, "CU16") {
            Some(Bytecode::CU16)
        } else if str_eq(s, "CU32") {
            Some(Bytecode::CU32)
        } else if str_eq(s, "CU64") {
            Some(Bytecode::CU64)
        } else if str_eq(s, "CU128") {
            Some(Bytecode::CU128)
        } else if str_eq(s, "CBYTES") {
            Some(Bytecode::CBYTES)
        } else if str_eq(s, "CTO") {
            Some(Bytecode::CTO)
        } else if str_eq(s, "TNIL") {
            Some(Bytecode::TNIL)
        } else if str_eq(s, "TLIST") {
            Some(Bytecode::TLIST)
        } else if str_eq(s, "TMAP") {
            Some(Bytecode::TMAP)
        } else if str_eq(s, "TIS") {
            Some(Bytecode::TIS)
        } else if str_eq(s, "TID") {
            Some(Bytecode::TID)
        } else if str_eq(s, "DUP") {
            Some(Bytecode::DUP)
        } else if str_eq(s, "DUPN") {
            Some(Bytecode::DUPN)
        } else if str_eq(s, "POP") {
            Some(Bytecode::POP)
        } else if str_eq(s, "POPN") {
            Some(Bytecode::POPN)
        } else if str_eq(s, "ROLL0") {
            Some(Bytecode::ROLL0)
        } else if str_eq(s, "ROLL") {
            Some(Bytecode::ROLL)
        } else if str_eq(s, "SWAP") {
            Some(Bytecode::SWAP)
        } else if str_eq(s, "REV") {
            Some(Bytecode::REV)
        } else if str_eq(s, "CAT") {
            Some(Bytecode::CAT)
        } else if str_eq(s, "JOIN") {
            Some(Bytecode::JOIN)
        } else if str_eq(s, "BYTE") {
            Some(Bytecode::BYTE)
        } else if str_eq(s, "CUT") {
            Some(Bytecode::CUT)
        } else if str_eq(s, "LEFT") {
            Some(Bytecode::LEFT)
        } else if str_eq(s, "RIGHT") {
            Some(Bytecode::RIGHT)
        } else if str_eq(s, "LDROP") {
            Some(Bytecode::LDROP)
        } else if str_eq(s, "RDROP") {
            Some(Bytecode::RDROP)
        } else if str_eq(s, "SIZE") {
            Some(Bytecode::SIZE)
        } else if str_eq(s, "CHOOSE") {
            Some(Bytecode::CHOOSE)
        } else if str_eq(s, "NEWLIST") {
            Some(Bytecode::NEWLIST)
        } else if str_eq(s, "NEWMAP") {
            Some(Bytecode::NEWMAP)
        } else if str_eq(s, "PACKLIST") {
            Some(Bytecode::PACKLIST)
        } else if str_eq(s, "PACKMAP") {
            Some(Bytecode::PACKMAP)
        } else if str_eq(s, "INSERT") {
            Some(Bytecode::INSERT)
        } else if str_eq(s, "REMOVE") {
            Some(Bytecode::REMOVE)
        } else if str_eq(s, "CLEAR") {
            Some(Bytecode::CLEAR)
        } else if str_eq(s, "MERGE") {
            Some(Bytecode::MERGE)
        } else if str_eq(s, "LENGTH") {
            Some(Bytecode::LENGTH)
        } else if str_eq(s, "HASKEY") {
            Some(Bytecode::HASKEY)
        } else if str_eq(s, "ITEMGET") {
            Some(Bytecode::ITEMGET)
        } else if str_eq(s, "KEYS") {
            Some(Bytecode::KEYS)
        } else if str_eq(s, "VALUES") {
            Some(Bytecode::VALUES)
        } else if str_eq(s, "TAKEFIRST") {
            Some(Bytecode::TAKEFIRST)
        } else if str_eq(s, "TAKELAST") {
            Some(Bytecode::TAKELAST)
        } else if str_eq(s, "APPEND") {
            Some(Bytecode::APPEND)
        } else if str_eq(s, "CLONE") {
            Some(Bytecode::CLONE)
        } else if str_eq(s, "UNPACK") {
            Some(Bytecode::UNPACK)
        } else if str_eq(s, "PACKTUPLE") {
            Some(Bytecode::PACKTUPLE)
        } else if str_eq(s, "TUPLE2LIST") {
            Some(Bytecode::TUPLE2LIST)
        } else if str_eq(s, "GPUT") {
            Some(Bytecode::GPUT)
        } else if str_eq(s, "GGET") {
            Some(Bytecode::GGET)
        } else if str_eq(s, "MPUT") {
            Some(Bytecode::MPUT)
        } else if str_eq(s, "MGET") {
            Some(Bytecode::MGET)
        } else if str_eq(s, "MONCE") {
            Some(Bytecode::MONCE)
        } else if str_eq(s, "MTAKE") {
            Some(Bytecode::MTAKE)
        } else if str_eq(s, "MPATCH") {
            Some(Bytecode::MPATCH)
        } else if str_eq(s, "XLG") {
            Some(Bytecode::XLG)
        } else if str_eq(s, "XOP") {
            Some(Bytecode::XOP)
        } else if str_eq(s, "GET") {
            Some(Bytecode::GET)
        } else if str_eq(s, "PUT") {
            Some(Bytecode::PUT)
        } else if str_eq(s, "GETX") {
            Some(Bytecode::GETX)
        } else if str_eq(s, "PUTX") {
            Some(Bytecode::PUTX)
        } else if str_eq(s, "ALLOC") {
            Some(Bytecode::ALLOC)
        } else if str_eq(s, "GET0") {
            Some(Bytecode::GET0)
        } else if str_eq(s, "GET1") {
            Some(Bytecode::GET1)
        } else if str_eq(s, "GET2") {
            Some(Bytecode::GET2)
        } else if str_eq(s, "GET3") {
            Some(Bytecode::GET3)
        } else if str_eq(s, "HREADUL") {
            Some(Bytecode::HREADUL)
        } else if str_eq(s, "HREADU") {
            Some(Bytecode::HREADU)
        } else if str_eq(s, "HWRITEXL") {
            Some(Bytecode::HWRITEXL)
        } else if str_eq(s, "HWRITEX") {
            Some(Bytecode::HWRITEX)
        } else if str_eq(s, "HREAD") {
            Some(Bytecode::HREAD)
        } else if str_eq(s, "HWRITE") {
            Some(Bytecode::HWRITE)
        } else if str_eq(s, "HGROW") {
            Some(Bytecode::HGROW)
        } else if str_eq(s, "LOG1") {
            Some(Bytecode::LOG1)
        } else if str_eq(s, "LOG2") {
            Some(Bytecode::LOG2)
        } else if str_eq(s, "LOG3") {
            Some(Bytecode::LOG3)
        } else if str_eq(s, "LOG4") {
            Some(Bytecode::LOG4)
        } else if str_eq(s, "SPUT") {
            Some(Bytecode::SPUT)
        } else if str_eq(s, "SGET") {
            Some(Bytecode::SGET)
        } else if str_eq(s, "SSTAT") {
            Some(Bytecode::SSTAT)
        } else if str_eq(s, "SLOAD") {
            Some(Bytecode::SLOAD)
        } else if str_eq(s, "SPATCH") {
            Some(Bytecode::SPATCH)
        } else if str_eq(s, "SEDIT") {
            Some(Bytecode::SEDIT)
        } else if str_eq(s, "SDEL") {
            Some(Bytecode::SDEL)
        } else if str_eq(s, "SNEW") {
            Some(Bytecode::SNEW)
        } else if str_eq(s, "SRECV") {
            Some(Bytecode::SRECV)
        } else if str_eq(s, "SRENT") {
            Some(Bytecode::SRENT)
        } else if str_eq(s, "AND") {
            Some(Bytecode::AND)
        } else if str_eq(s, "OR") {
            Some(Bytecode::OR)
        } else if str_eq(s, "EQ") {
            Some(Bytecode::EQ)
        } else if str_eq(s, "NEQ") {
            Some(Bytecode::NEQ)
        } else if str_eq(s, "LT") {
            Some(Bytecode::LT)
        } else if str_eq(s, "GT") {
            Some(Bytecode::GT)
        } else if str_eq(s, "LE") {
            Some(Bytecode::LE)
        } else if str_eq(s, "GE") {
            Some(Bytecode::GE)
        } else if str_eq(s, "NOT") {
            Some(Bytecode::NOT)
        } else if str_eq(s, "BSHR") {
            Some(Bytecode::BSHR)
        } else if str_eq(s, "BSHL") {
            Some(Bytecode::BSHL)
        } else if str_eq(s, "BXOR") {
            Some(Bytecode::BXOR)
        } else if str_eq(s, "BOR") {
            Some(Bytecode::BOR)
        } else if str_eq(s, "BAND") {
            Some(Bytecode::BAND)
        } else if str_eq(s, "ADD") {
            Some(Bytecode::ADD)
        } else if str_eq(s, "SUB") {
            Some(Bytecode::SUB)
        } else if str_eq(s, "MUL") {
            Some(Bytecode::MUL)
        } else if str_eq(s, "DIV") {
            Some(Bytecode::DIV)
        } else if str_eq(s, "MOD") {
            Some(Bytecode::MOD)
        } else if str_eq(s, "POW") {
            Some(Bytecode::POW)
        } else if str_eq(s, "SQRT") {
            Some(Bytecode::SQRT)
        } else if str_eq(s, "SQRTUP") {
            Some(Bytecode::SQRTUP)
        } else if str_eq(s, "MAX") {
            Some(Bytecode::MAX)
        } else if str_eq(s, "MIN") {
            Some(Bytecode::MIN)
        } else if str_eq(s, "CLAMP") {
            Some(Bytecode::CLAMP)
        } else if str_eq(s, "ABSDIFF") {
            Some(Bytecode::ABSDIFF)
        } else if str_eq(s, "INC") {
            Some(Bytecode::INC)
        } else if str_eq(s, "DEC") {
            Some(Bytecode::DEC)
        } else if str_eq(s, "ADDMOD") {
            Some(Bytecode::ADDMOD)
        } else if str_eq(s, "MULMOD") {
            Some(Bytecode::MULMOD)
        } else if str_eq(s, "MULADD") {
            Some(Bytecode::MULADD)
        } else if str_eq(s, "MULSUB") {
            Some(Bytecode::MULSUB)
        } else if str_eq(s, "DIVUP") {
            Some(Bytecode::DIVUP)
        } else if str_eq(s, "DIVEXACT") {
            Some(Bytecode::DIVEXACT)
        } else if str_eq(s, "MULDIV") {
            Some(Bytecode::MULDIV)
        } else if str_eq(s, "MULDIVUP") {
            Some(Bytecode::MULDIVUP)
        } else if str_eq(s, "FINPOW3") {
            Some(Bytecode::FINPOW3)
        } else if str_eq(s, "FINP4") {
            Some(Bytecode::FINP4)
        } else if str_eq(s, "FINP3") {
            Some(Bytecode::FINP3)
        } else if str_eq(s, "FIN4") {
            Some(Bytecode::FIN4)
        } else if str_eq(s, "FIN3") {
            Some(Bytecode::FIN3)
        } else if str_eq(s, "FIN2") {
            Some(Bytecode::FIN2)
        } else if str_eq(s, "JMPL") {
            Some(Bytecode::JMPL)
        } else if str_eq(s, "JMPS") {
            Some(Bytecode::JMPS)
        } else if str_eq(s, "JMPSL") {
            Some(Bytecode::JMPSL)
        } else if str_eq(s, "BRL") {
            Some(Bytecode::BRL)
        } else if str_eq(s, "BRS") {
            Some(Bytecode::BRS)
        } else if str_eq(s, "BRSL") {
            Some(Bytecode::BRSL)
        } else if str_eq(s, "BRSLN") {
            Some(Bytecode::BRSLN)
        } else if str_eq(s, "PRT") {
            Some(Bytecode::PRT)
        } else if str_eq(s, "AST") {
            Some(Bytecode::AST)
        } else if str_eq(s, "ERR") {
            Some(Bytecode::ERR)
        } else if str_eq(s, "ABT") {
            Some(Bytecode::ABT)
        } else if str_eq(s, "RET") {
            Some(Bytecode::RET)
        } else if str_eq(s, "END") {
            Some(Bytecode::END)
        } else if str_eq(s, "IRBYTECODE") {
            Some(Bytecode::IRBYTECODE)
        } else if str_eq(s, "IRLIST") {
            Some(Bytecode::IRLIST)
        } else if str_eq(s, "IRBLOCK") {
            Some(Bytecode::IRBLOCK)
        } else if str_eq(s, "IRBLOCKR") {
            Some(Bytecode::IRBLOCKR)
        } else if str_eq(s, "IRIF") {
            Some(Bytecode::IRIF)
        } else if str_eq(s, "IRIFR") {
            Some(Bytecode::IRIFR)
        } else if str_eq(s, "IRWHILE") {
            Some(Bytecode::IRWHILE)
        } else if str_eq(s, "IRBREAK") {
            Some(Bytecode::IRBREAK)
        } else if str_eq(s, "IRCONTINUE") {
            Some(Bytecode::IRCONTINUE)
        } else if str_eq(s, "BURN") {
            Some(Bytecode::BURN)
        } else if str_eq(s, "NOP") {
            Some(Bytecode::NOP)
        } else if str_eq(s, "NT") {
            Some(Bytecode::NT)
        } else {
            None
        }
    }

    /// The valid opcode of a byte; fails with `InstInvalid` on a reserved slot.
    pub fn try_from_u8(v: u8) -> (r: VmrtRes<Bytecode>)
        ensures
            spec_valid(v) ==> (r matches Ok(b) && spec_byte(b) == v),
            !spec_valid(v) ==> (r matches Err(e) && e.0 == ItrErrCode::InstInvalid),
    {
        let b = Bytecode::from_byte(v);
        let m = b.metadata();
        if m.valid {
            Ok(b)
        } else {
            Err(ItrErr::new(ItrErrCode::InstInvalid, "bytecode is invalid"))
        }
    }
}

impl Default for Bytecode {
    fn default() -> (r: Self)
        ensures
            r == Bytecode::ACTION,
    {
        Bytecode::ACTION
    }
}

/// Is the instruction one of the user-call family `CODE_CALL..=CALLSELFPURE`.
pub fn is_user_call_inst(inst: Bytecode) -> (r: bool)
    ensures
        r == spec_is_user_call(spec_byte(inst)),
{
    let v = inst.to_u8();
    0x12 <= v && v <= 0x1c
}

/// Succeeds when the instruction ends a code body (RET, END, ERR, ABT or a
/// user call); fails with `CodeNotWithEnd` otherwise.
pub fn ensure_terminal_instruction(inst: Bytecode) -> (r: VmrtErr)
    ensures
        r is Ok <==> (spec_is_terminal(spec_byte(inst)) || spec_is_user_call(spec_byte(inst))),
        r matches Err(e) ==> e.0 == ItrErrCode::CodeNotWithEnd,
{
    let v = inst.to_u8();
    if v == 0xee || v == 0xef || v == 0xec || v == 0xed || is_user_call_inst(inst) {
        return Ok(());
    }
    Err(ItrErr::code(ItrErrCode::CodeNotWithEnd))
}

/// The byte map is a bijection between byte values and opcode slots.
pub proof fn lemma_byte_roundtrip(v: u8, b: Bytecode)
    ensures
        spec_byte(spec_from_byte(v)) == v,
        spec_from_byte(spec_byte(b)) == b,
{
}

/// Exactly the named opcodes are valid, and each valid opcode's mnemonic parses
/// back to it.
pub proof fn lemma_user_calls_are_valid(v: u8)
    ensures
        spec_is_user_call(v) ==> spec_valid(v),
        spec_is_terminal(v) ==> spec_valid(v),
{
}

} // verus!
