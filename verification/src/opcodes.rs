//! The opcode table: the stable numerical mapping between symbolic opcode
//! names and their byte values. The values are consensus-critical; external
//! toolchains rely on this single source of truth. Every byte value is a
//! recognized opcode; disabled and reserved opcodes are encodable, and their
//! rejection is the script engine's business.

use vstd::prelude::*;

verus! {

/// An empty push, leaving the empty value on the stack.
pub const OP_FALSE: u8 = 0x00;

/// The same empty push under its numeric name.
pub const OP_0: u8 = 0x00;

pub const OP_DATA_1: u8 = 0x01;
pub const OP_DATA_2: u8 = 0x02;
pub const OP_DATA_3: u8 = 0x03;
pub const OP_DATA_4: u8 = 0x04;
pub const OP_DATA_5: u8 = 0x05;
pub const OP_DATA_6: u8 = 0x06;
pub const OP_DATA_7: u8 = 0x07;
pub const OP_DATA_8: u8 = 0x08;
pub const OP_DATA_9: u8 = 0x09;
pub const OP_DATA_10: u8 = 0x0a;
pub const OP_DATA_11: u8 = 0x0b;
pub const OP_DATA_12: u8 = 0x0c;
pub const OP_DATA_13: u8 = 0x0d;
pub const OP_DATA_14: u8 = 0x0e;
pub const OP_DATA_15: u8 = 0x0f;
pub const OP_DATA_16: u8 = 0x10;
pub const OP_DATA_17: u8 = 0x11;
pub const OP_DATA_18: u8 = 0x12;
pub const OP_DATA_19: u8 = 0x13;
pub const OP_DATA_20: u8 = 0x14;
pub const OP_DATA_21: u8 = 0x15;
pub const OP_DATA_22: u8 = 0x16;
pub const OP_DATA_23: u8 = 0x17;
pub const OP_DATA_24: u8 = 0x18;
pub const OP_DATA_25: u8 = 0x19;
pub const OP_DATA_26: u8 = 0x1a;
pub const OP_DATA_27: u8 = 0x1b;
pub const OP_DATA_28: u8 = 0x1c;
pub const OP_DATA_29: u8 = 0x1d;
pub const OP_DATA_30: u8 = 0x1e;
pub const OP_DATA_31: u8 = 0x1f;
pub const OP_DATA_32: u8 = 0x20;
pub const OP_DATA_33: u8 = 0x21;
pub const OP_DATA_34: u8 = 0x22;
pub const OP_DATA_35: u8 = 0x23;
pub const OP_DATA_36: u8 = 0x24;
pub const OP_DATA_37: u8 = 0x25;
pub const OP_DATA_38: u8 = 0x26;
pub const OP_DATA_39: u8 = 0x27;
pub const OP_DATA_40: u8 = 0x28;
pub const OP_DATA_41: u8 = 0x29;
pub const OP_DATA_42: u8 = 0x2a;
pub const OP_DATA_43: u8 = 0x2b;
pub const OP_DATA_44: u8 = 0x2c;
pub const OP_DATA_45: u8 = 0x2d;
pub const OP_DATA_46: u8 = 0x2e;
pub const OP_DATA_47: u8 = 0x2f;
pub const OP_DATA_48: u8 = 0x30;
pub const OP_DATA_49: u8 = 0x31;
pub const OP_DATA_50: u8 = 0x32;
pub const OP_DATA_51: u8 = 0x33;
pub const OP_DATA_52: u8 = 0x34;
pub const OP_DATA_53: u8 = 0x35;
pub const OP_DATA_54: u8 = 0x36;
pub const OP_DATA_55: u8 = 0x37;
pub const OP_DATA_56: u8 = 0x38;
pub const OP_DATA_57: u8 = 0x39;
pub const OP_DATA_58: u8 = 0x3a;
pub const OP_DATA_59: u8 = 0x3b;
pub const OP_DATA_60: u8 = 0x3c;
pub const OP_DATA_61: u8 = 0x3d;
pub const OP_DATA_62: u8 = 0x3e;
pub const OP_DATA_63: u8 = 0x3f;
pub const OP_DATA_64: u8 = 0x40;
pub const OP_DATA_65: u8 = 0x41;
pub const OP_DATA_66: u8 = 0x42;
pub const OP_DATA_67: u8 = 0x43;
pub const OP_DATA_68: u8 = 0x44;
pub const OP_DATA_69: u8 = 0x45;
pub const OP_DATA_70: u8 = 0x46;
pub const OP_DATA_71: u8 = 0x47;
pub const OP_DATA_72: u8 = 0x48;
pub const OP_DATA_73: u8 = 0x49;
pub const OP_DATA_74: u8 = 0x4a;
pub const OP_DATA_75: u8 = 0x4b;
pub const OP_PUSH_DATA_1: u8 = 0x4c;
pub const OP_PUSH_DATA_2: u8 = 0x4d;
pub const OP_PUSH_DATA_4: u8 = 0x4e;
pub const OP_1_NEGATE: u8 = 0x4f;
pub const OP_RESERVED: u8 = 0x50;
pub const OP_1: u8 = 0x51;
pub const OP_2: u8 = 0x52;
pub const OP_3: u8 = 0x53;
pub const OP_4: u8 = 0x54;
pub const OP_5: u8 = 0x55;
pub const OP_6: u8 = 0x56;
pub const OP_7: u8 = 0x57;
pub const OP_8: u8 = 0x58;
pub const OP_9: u8 = 0x59;
pub const OP_10: u8 = 0x5a;
pub const OP_11: u8 = 0x5b;
pub const OP_12: u8 = 0x5c;
pub const OP_13: u8 = 0x5d;
pub const OP_14: u8 = 0x5e;
pub const OP_15: u8 = 0x5f;
pub const OP_16: u8 = 0x60;
pub const OP_NOP: u8 = 0x61;
pub const OP_VER: u8 = 0x62;
pub const OP_IF: u8 = 0x63;
pub const OP_NOT_IF: u8 = 0x64;
pub const OP_VER_IF: u8 = 0x65;
pub const OP_VER_NOT_IF: u8 = 0x66;
pub const OP_ELSE: u8 = 0x67;
pub const OP_END_IF: u8 = 0x68;
pub const OP_VERIFY: u8 = 0x69;
pub const OP_RETURN: u8 = 0x6a;
pub const OP_TO_ALT_STACK: u8 = 0x6b;
pub const OP_FROM_ALT_STACK: u8 = 0x6c;
pub const OP_2_DROP: u8 = 0x6d;
pub const OP_2_DUP: u8 = 0x6e;
pub const OP_3_DUP: u8 = 0x6f;
pub const OP_2_OVER: u8 = 0x70;
pub const OP_2_ROT: u8 = 0x71;
pub const OP_2_SWAP: u8 = 0x72;
pub const OP_IF_DUP: u8 = 0x73;
pub const OP_DEPTH: u8 = 0x74;
pub const OP_DROP: u8 = 0x75;
pub const OP_DUP: u8 = 0x76;
pub const OP_NIP: u8 = 0x77;
pub const OP_OVER: u8 = 0x78;
pub const OP_PICK: u8 = 0x79;
pub const OP_ROLL: u8 = 0x7a;
pub const OP_ROT: u8 = 0x7b;
pub const OP_SWAP: u8 = 0x7c;
pub const OP_TUCK: u8 = 0x7d;
pub const OP_CAT: u8 = 0x7e;
pub const OP_SUB_STR: u8 = 0x7f;
pub const OP_LEFT: u8 = 0x80;
pub const OP_RIGHT: u8 = 0x81;
pub const OP_SIZE: u8 = 0x82;
pub const OP_INVERT: u8 = 0x83;
pub const OP_AND: u8 = 0x84;
pub const OP_OR: u8 = 0x85;
pub const OP_XOR: u8 = 0x86;
pub const OP_EQUAL: u8 = 0x87;
pub const OP_EQUAL_VERIFY: u8 = 0x88;
pub const OP_RESERVED_1: u8 = 0x89;
pub const OP_RESERVED_2: u8 = 0x8a;
pub const OP_1_ADD: u8 = 0x8b;
pub const OP_1_SUB: u8 = 0x8c;
pub const OP_2_MUL: u8 = 0x8d;
pub const OP_2_DIV: u8 = 0x8e;
pub const OP_NEGATE: u8 = 0x8f;
pub const OP_ABS: u8 = 0x90;
pub const OP_NOT: u8 = 0x91;
pub const OP_0_NOT_EQUAL: u8 = 0x92;
pub const OP_ADD: u8 = 0x93;
pub const OP_SUB: u8 = 0x94;
pub const OP_MUL: u8 = 0x95;
pub const OP_DIV: u8 = 0x96;
pub const OP_MOD: u8 = 0x97;
pub const OP_L_SHIFT: u8 = 0x98;
pub const OP_R_SHIFT: u8 = 0x99;
pub const OP_BOOL_AND: u8 = 0x9a;
pub const OP_BOOL_OR: u8 = 0x9b;
pub const OP_NUM_EQUAL: u8 = 0x9c;
pub const OP_NUM_EQUAL_VERIFY: u8 = 0x9d;
pub const OP_NUM_NOT_EQUAL: u8 = 0x9e;
pub const OP_LESS_THAN: u8 = 0x9f;
pub const OP_GREATER_THAN: u8 = 0xa0;
pub const OP_LESS_THAN_OR_EQUAL: u8 = 0xa1;
pub const OP_GREATER_THAN_OR_EQUAL: u8 = 0xa2;
pub const OP_MIN: u8 = 0xa3;
pub const OP_MAX: u8 = 0xa4;
pub const OP_WITHIN: u8 = 0xa5;
pub const OP_UNKNOWN_166: u8 = 0xa6;
pub const OP_UNKNOWN_167: u8 = 0xa7;
pub const OP_SHA_256: u8 = 0xa8;
pub const OP_CHECK_MULTI_SIG_ECDSA: u8 = 0xa9;
pub const OP_BLAKE_2B: u8 = 0xaa;
pub const OP_CHECK_SIG_ECDSA: u8 = 0xab;
pub const OP_CHECK_SIG: u8 = 0xac;
pub const OP_CHECK_SIG_VERIFY: u8 = 0xad;
pub const OP_CHECK_MULTI_SIG: u8 = 0xae;
pub const OP_CHECK_MULTI_SIG_VERIFY: u8 = 0xaf;
pub const OP_CHECK_LOCK_TIME_VERIFY: u8 = 0xb0;
pub const OP_CHECK_SEQUENCE_VERIFY: u8 = 0xb1;
pub const OP_UNKNOWN_178: u8 = 0xb2;
pub const OP_UNKNOWN_179: u8 = 0xb3;
pub const OP_UNKNOWN_180: u8 = 0xb4;
pub const OP_UNKNOWN_181: u8 = 0xb5;
pub const OP_UNKNOWN_182: u8 = 0xb6;
pub const OP_UNKNOWN_183: u8 = 0xb7;
pub const OP_UNKNOWN_184: u8 = 0xb8;
pub const OP_UNKNOWN_185: u8 = 0xb9;
pub const OP_UNKNOWN_186: u8 = 0xba;
pub const OP_UNKNOWN_187: u8 = 0xbb;
pub const OP_UNKNOWN_188: u8 = 0xbc;
pub const OP_UNKNOWN_189: u8 = 0xbd;
pub const OP_UNKNOWN_190: u8 = 0xbe;
pub const OP_UNKNOWN_191: u8 = 0xbf;
pub const OP_UNKNOWN_192: u8 = 0xc0;
pub const OP_UNKNOWN_193: u8 = 0xc1;
pub const OP_UNKNOWN_194: u8 = 0xc2;
pub const OP_UNKNOWN_195: u8 = 0xc3;
pub const OP_UNKNOWN_196: u8 = 0xc4;
pub const OP_UNKNOWN_197: u8 = 0xc5;
pub const OP_UNKNOWN_198: u8 = 0xc6;
pub const OP_UNKNOWN_199: u8 = 0xc7;
pub const OP_UNKNOWN_200: u8 = 0xc8;
pub const OP_UNKNOWN_201: u8 = 0xc9;
pub const OP_UNKNOWN_202: u8 = 0xca;
pub const OP_UNKNOWN_203: u8 = 0xcb;
pub const OP_UNKNOWN_204: u8 = 0xcc;
pub const OP_UNKNOWN_205: u8 = 0xcd;
pub const OP_UNKNOWN_206: u8 = 0xce;
pub const OP_UNKNOWN_207: u8 = 0xcf;
pub const OP_UNKNOWN_208: u8 = 0xd0;
pub const OP_UNKNOWN_209: u8 = 0xd1;
pub const OP_UNKNOWN_210: u8 = 0xd2;
pub const OP_UNKNOWN_211: u8 = 0xd3;
pub const OP_UNKNOWN_212: u8 = 0xd4;
pub const OP_UNKNOWN_213: u8 = 0xd5;
pub const OP_UNKNOWN_214: u8 = 0xd6;
pub const OP_UNKNOWN_215: u8 = 0xd7;
pub const OP_UNKNOWN_216: u8 = 0xd8;
pub const OP_UNKNOWN_217: u8 = 0xd9;
pub const OP_UNKNOWN_218: u8 = 0xda;
pub const OP_UNKNOWN_219: u8 = 0xdb;
pub const OP_UNKNOWN_220: u8 = 0xdc;
pub const OP_UNKNOWN_221: u8 = 0xdd;
pub const OP_UNKNOWN_222: u8 = 0xde;
pub const OP_UNKNOWN_223: u8 = 0xdf;
pub const OP_UNKNOWN_224: u8 = 0xe0;
pub const OP_UNKNOWN_225: u8 = 0xe1;
pub const OP_UNKNOWN_226: u8 = 0xe2;
pub const OP_UNKNOWN_227: u8 = 0xe3;
pub const OP_UNKNOWN_228: u8 = 0xe4;
pub const OP_UNKNOWN_229: u8 = 0xe5;
pub const OP_UNKNOWN_230: u8 = 0xe6;
pub const OP_UNKNOWN_231: u8 = 0xe7;
pub const OP_UNKNOWN_232: u8 = 0xe8;
pub const OP_UNKNOWN_233: u8 = 0xe9;
pub const OP_UNKNOWN_234: u8 = 0xea;
pub const OP_UNKNOWN_235: u8 = 0xeb;
pub const OP_UNKNOWN_236: u8 = 0xec;
pub const OP_UNKNOWN_237: u8 = 0xed;
pub const OP_UNKNOWN_238: u8 = 0xee;
pub const OP_UNKNOWN_239: u8 = 0xef;
pub const OP_UNKNOWN_240: u8 = 0xf0;
pub const OP_UNKNOWN_241: u8 = 0xf1;
pub const OP_UNKNOWN_242: u8 = 0xf2;
pub const OP_UNKNOWN_243: u8 = 0xf3;
pub const OP_UNKNOWN_244: u8 = 0xf4;
pub const OP_UNKNOWN_245: u8 = 0xf5;
pub const OP_UNKNOWN_246: u8 = 0xf6;
pub const OP_UNKNOWN_247: u8 = 0xf7;
pub const OP_UNKNOWN_248: u8 = 0xf8;
pub const OP_UNKNOWN_249: u8 = 0xf9;
pub const OP_SMALL_INTEGER: u8 = 0xfa;
pub const OP_PUB_KEYS: u8 = 0xfb;
pub const OP_UNKNOWN_252: u8 = 0xfc;
pub const OP_PUB_KEY_HASH: u8 = 0xfd;
pub const OP_PUB_KEY: u8 = 0xfe;
pub const OP_INVALID_OP_CODE: u8 = 0xff;

/// The smallest push of the number one, also the true value.
pub const OP_TRUE: u8 = 0x51;

} // verus!
