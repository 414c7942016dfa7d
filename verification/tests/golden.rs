use sim86::decoder::{decode_instruction, DisasmContext, Instruction};
use sim86::memory::{Memory, SegmentedAccess};
use sim86::printer::print_instruction;

/// The five bytes that follow the two bytes under test.
const TAIL: [u8; 5] = [0x34, 0x12, 0x78, 0x56, 0x9A];

fn decode_with_tail(memory: &mut Memory, first: u8, second: u8) -> Instruction {
    memory.load(&[first, second], 0);
    memory.load(&TAIL, 2);
    let mut at = SegmentedAccess::default();
    decode_instruction(&DisasmContext::new(), memory, &mut at)
}

/// First byte, second byte, size and text of the instruction they start.
const LISTING: [(u8, u8, u32, &str); 1280] = [
    (0x00, 0x00, 2, "add [bx+si], al"),
    (0x00, 0x46, 3, "add [bp+52], al"),
    (0x00, 0x86, 4, "add [bp+4660], al"),
    (0x00, 0xC3, 2, "add bl, al"),
    (0x00, 0xFE, 2, "add dh, bh"),
    (0x01, 0x00, 2, "add [bx+si], ax"),
    (0x01, 0x46, 3, "add [bp+52], ax"),
    (0x01, 0x86, 4, "add [bp+4660], ax"),
    (0x01, 0xC3, 2, "add bx, ax"),
    (0x01, 0xFE, 2, "add si, di"),
    (0x02, 0x00, 2, "add al, [bx+si]"),
    (0x02, 0x46, 3, "add al, [bp+52]"),
    (0x02, 0x86, 4, "add al, [bp+4660]"),
    (0x02, 0xC3, 2, "add al, bl"),
    (0x02, 0xFE, 2, "add bh, dh"),
    (0x03, 0x00, 2, "add ax, [bx+si]"),
    (0x03, 0x46, 3, "add ax, [bp+52]"),
    (0x03, 0x86, 4, "add ax, [bp+4660]"),
    (0x03, 0xC3, 2, "add ax, bx"),
    (0x03, 0xFE, 2, "add di, si"),
    (0x04, 0x00, 2, "add al, 0"),
    (0x04, 0x46, 2, "add al, 70"),
    (0x04, 0x86, 2, "add al, 134"),
    (0x04, 0xC3, 2, "add al, 195"),
    (0x04, 0xFE, 2, "add al, 254"),
    (0x05, 0x00, 3, "add ax, 13312"),
    (0x05, 0x46, 3, "add ax, 13382"),
    (0x05, 0x86, 3, "add ax, 13446"),
    (0x05, 0xC3, 3, "add ax, 13507"),
    (0x05, 0xFE, 3, "add ax, 13566"),
    (0x06, 0x00, 1, "push es"),
    (0x06, 0x46, 1, "push es"),
    (0x06, 0x86, 1, "push es"),
    (0x06, 0xC3, 1, "push es"),
    (0x06, 0xFE, 1, "push es"),
    (0x07, 0x00, 1, "pop es"),
    (0x07, 0x46, 1, "pop es"),
    (0x07, 0x86, 1, "pop es"),
    (0x07, 0xC3, 1, "pop es"),
    (0x07, 0xFE, 1, "pop es"),
    (0x08, 0x00, 2, "or [bx+si], al"),
    (0x08, 0x46, 3, "or [bp+52], al"),
    (0x08, 0x86, 4, "or [bp+4660], al"),
    (0x08, 0xC3, 2, "or bl, al"),
    (0x08, 0xFE, 2, "or dh, bh"),
    (0x09, 0x00, 2, "or [bx+si], ax"),
    (0x09, 0x46, 3, "or [bp+52], ax"),
    (0x09, 0x86, 4, "or [bp+4660], ax"),
    (0x09, 0xC3, 2, "or bx, ax"),
    (0x09, 0xFE, 2, "or si, di"),
    (0x0A, 0x00, 2, "or al, [bx+si]"),
    (0x0A, 0x46, 3, "or al, [bp+52]"),
    (0x0A, 0x86, 4, "or al, [bp+4660]"),
    (0x0A, 0xC3, 2, "or al, bl"),
    (0x0A, 0xFE, 2, "or bh, dh"),
    (0x0B, 0x00, 2, "or ax, [bx+si]"),
    (0x0B, 0x46, 3, "or ax, [bp+52]"),
    (0x0B, 0x86, 4, "or ax, [bp+4660]"),
    (0x0B, 0xC3, 2, "or ax, bx"),
    (0x0B, 0xFE, 2, "or di, si"),
    (0x0C, 0x00, 2, "or al, 0"),
    (0x0C, 0x46, 2, "or al, 70"),
    (0x0C, 0x86, 2, "or al, 134"),
    (0x0C, 0xC3, 2, "or al, 195"),
    (0x0C, 0xFE, 2, "or al, 254"),
    (0x0D, 0x00, 3, "or ax, 13312"),
    (0x0D, 0x46, 3, "or ax, 13382"),
    (0x0D, 0x86, 3, "or ax, 13446"),
    (0x0D, 0xC3, 3, "or ax, 13507"),
    (0x0D, 0xFE, 3, "or ax, 13566"),
    (0x0E, 0x00, 1, "push cs"),
    (0x0E, 0x46, 1, "push cs"),
    (0x0E, 0x86, 1, "push cs"),
    (0x0E, 0xC3, 1, "push cs"),
    (0x0E, 0xFE, 1, "push cs"),
    (0x0F, 0x00, 1, "pop cs"),
    (0x0F, 0x46, 1, "pop cs"),
    (0x0F, 0x86, 1, "pop cs"),
    (0x0F, 0xC3, 1, "pop cs"),
    (0x0F, 0xFE, 1, "pop cs"),
    (0x10, 0x00, 2, "adc [bx+si], al"),
    (0x10, 0x46, 3, "adc [bp+52], al"),
    (0x10, 0x86, 4, "adc [bp+4660], al"),
    (0x10, 0xC3, 2, "adc bl, al"),
    (0x10, 0xFE, 2, "adc dh, bh"),
    (0x11, 0x00, 2, "adc [bx+si], ax"),
    (0x11, 0x46, 3, "adc [bp+52], ax"),
    (0x11, 0x86, 4, "adc [bp+4660], ax"),
    (0x11, 0xC3, 2, "adc bx, ax"),
    (0x11, 0xFE, 2, "adc si, di"),
    (0x12, 0x00, 2, "adc al, [bx+si]"),
    (0x12, 0x46, 3, "adc al, [bp+52]"),
    (0x12, 0x86, 4, "adc al, [bp+4660]"),
    (0x12, 0xC3, 2, "adc al, bl"),
    (0x12, 0xFE, 2, "adc bh, dh"),
    (0x13, 0x00, 2, "adc ax, [bx+si]"),
    (0x13, 0x46, 3, "adc ax, [bp+52]"),
    (0x13, 0x86, 4, "adc ax, [bp+4660]"),
    (0x13, 0xC3, 2, "adc ax, bx"),
    (0x13, 0xFE, 2, "adc di, si"),
    (0x14, 0x00, 2, "adc al, 0"),
    (0x14, 0x46, 2, "adc al, 70"),
    (0x14, 0x86, 2, "adc al, 134"),
    (0x14, 0xC3, 2, "adc al, 195"),
    (0x14, 0xFE, 2, "adc al, 254"),
    (0x15, 0x00, 3, "adc ax, 13312"),
    (0x15, 0x46, 3, "adc ax, 13382"),
    (0x15, 0x86, 3, "adc ax, 13446"),
    (0x15, 0xC3, 3, "adc ax, 13507"),
    (0x15, 0xFE, 3, "adc ax, 13566"),
    (0x16, 0x00, 1, "push ss"),
    (0x16, 0x46, 1, "push ss"),
    (0x16, 0x86, 1, "push ss"),
    (0x16, 0xC3, 1, "push ss"),
    (0x16, 0xFE, 1, "push ss"),
    (0x17, 0x00, 1, "pop ss"),
    (0x17, 0x46, 1, "pop ss"),
    (0x17, 0x86, 1, "pop ss"),
    (0x17, 0xC3, 1, "pop ss"),
    (0x17, 0xFE, 1, "pop ss"),
    (0x18, 0x00, 2, "sbb [bx+si], al"),
    (0x18, 0x46, 3, "sbb [bp+52], al"),
    (0x18, 0x86, 4, "sbb [bp+4660], al"),
    (0x18, 0xC3, 2, "sbb bl, al"),
    (0x18, 0xFE, 2, "sbb dh, bh"),
    (0x19, 0x00, 2, "sbb [bx+si], ax"),
    (0x19, 0x46, 3, "sbb [bp+52], ax"),
    (0x19, 0x86, 4, "sbb [bp+4660], ax"),
    (0x19, 0xC3, 2, "sbb bx, ax"),
    (0x19, 0xFE, 2, "sbb si, di"),
    (0x1A, 0x00, 2, "sbb al, [bx+si]"),
    (0x1A, 0x46, 3, "sbb al, [bp+52]"),
    (0x1A, 0x86, 4, "sbb al, [bp+4660]"),
    (0x1A, 0xC3, 2, "sbb al, bl"),
    (0x1A, 0xFE, 2, "sbb bh, dh"),
    (0x1B, 0x00, 2, "sbb ax, [bx+si]"),
    (0x1B, 0x46, 3, "sbb ax, [bp+52]"),
    (0x1B, 0x86, 4, "sbb ax, [bp+4660]"),
    (0x1B, 0xC3, 2, "sbb ax, bx"),
    (0x1B, 0xFE, 2, "sbb di, si"),
    (0x1C, 0x00, 2, "sbb al, 0"),
    (0x1C, 0x46, 2, "sbb al, 70"),
    (0x1C, 0x86, 2, "sbb al, 134"),
    (0x1C, 0xC3, 2, "sbb al, 195"),
    (0x1C, 0xFE, 2, "sbb al, 254"),
    (0x1D, 0x00, 3, "sbb ax, 13312"),
    (0x1D, 0x46, 3, "sbb ax, 13382"),
    (0x1D, 0x86, 3, "sbb ax, 13446"),
    (0x1D, 0xC3, 3, "sbb ax, 13507"),
    (0x1D, 0xFE, 3, "sbb ax, 13566"),
    (0x1E, 0x00, 1, "push ds"),
    (0x1E, 0x46, 1, "push ds"),
    (0x1E, 0x86, 1, "push ds"),
    (0x1E, 0xC3, 1, "push ds"),
    (0x1E, 0xFE, 1, "push ds"),
    (0x1F, 0x00, 1, "pop ds"),
    (0x1F, 0x46, 1, "pop ds"),
    (0x1F, 0x86, 1, "pop ds"),
    (0x1F, 0xC3, 1, "pop ds"),
    (0x1F, 0xFE, 1, "pop ds"),
    (0x20, 0x00, 2, "and [bx+si], al"),
    (0x20, 0x46, 3, "and [bp+52], al"),
    (0x20, 0x86, 4, "and [bp+4660], al"),
    (0x20, 0xC3, 2, "and bl, al"),
    (0x20, 0xFE, 2, "and dh, bh"),
    (0x21, 0x00, 2, "and [bx+si], ax"),
    (0x21, 0x46, 3, "and [bp+52], ax"),
    (0x21, 0x86, 4, "and [bp+4660], ax"),
    (0x21, 0xC3, 2, "and bx, ax"),
    (0x21, 0xFE, 2, "and si, di"),
    (0x22, 0x00, 2, "and al, [bx+si]"),
    (0x22, 0x46, 3, "and al, [bp+52]"),
    (0x22, 0x86, 4, "and al, [bp+4660]"),
    (0x22, 0xC3, 2, "and al, bl"),
    (0x22, 0xFE, 2, "and bh, dh"),
    (0x23, 0x00, 2, "and ax, [bx+si]"),
    (0x23, 0x46, 3, "and ax, [bp+52]"),
    (0x23, 0x86, 4, "and ax, [bp+4660]"),
    (0x23, 0xC3, 2, "and ax, bx"),
    (0x23, 0xFE, 2, "and di, si"),
    (0x24, 0x00, 2, "and al, 0"),
    (0x24, 0x46, 2, "and al, 70"),
    (0x24, 0x86, 2, "and al, 134"),
    (0x24, 0xC3, 2, "and al, 195"),
    (0x24, 0xFE, 2, "and al, 254"),
    (0x25, 0x00, 3, "and ax, 13312"),
    (0x25, 0x46, 3, "and ax, 13382"),
    (0x25, 0x86, 3, "and ax, 13446"),
    (0x25, 0xC3, 3, "and ax, 13507"),
    (0x25, 0xFE, 3, "and ax, 13566"),
    (0x26, 0x00, 1, "segment es"),
    (0x26, 0x46, 1, "segment es"),
    (0x26, 0x86, 1, "segment es"),
    (0x26, 0xC3, 1, "segment es"),
    (0x26, 0xFE, 1, "segment es"),
    (0x27, 0x00, 1, "daa "),
    (0x27, 0x46, 1, "daa "),
    (0x27, 0x86, 1, "daa "),
    (0x27, 0xC3, 1, "daa "),
    (0x27, 0xFE, 1, "daa "),
    (0x28, 0x00, 2, "sub [bx+si], al"),
    (0x28, 0x46, 3, "sub [bp+52], al"),
    (0x28, 0x86, 4, "sub [bp+4660], al"),
    (0x28, 0xC3, 2, "sub bl, al"),
    (0x28, 0xFE, 2, "sub dh, bh"),
    (0x29, 0x00, 2, "sub [bx+si], ax"),
    (0x29, 0x46, 3, "sub [bp+52], ax"),
    (0x29, 0x86, 4, "sub [bp+4660], ax"),
    (0x29, 0xC3, 2, "sub bx, ax"),
    (0x29, 0xFE, 2, "sub si, di"),
    (0x2A, 0x00, 2, "sub al, [bx+si]"),
    (0x2A, 0x46, 3, "sub al, [bp+52]"),
    (0x2A, 0x86, 4, "sub al, [bp+4660]"),
    (0x2A, 0xC3, 2, "sub al, bl"),
    (0x2A, 0xFE, 2, "sub bh, dh"),
    (0x2B, 0x00, 2, "sub ax, [bx+si]"),
    (0x2B, 0x46, 3, "sub ax, [bp+52]"),
    (0x2B, 0x86, 4, "sub ax, [bp+4660]"),
    (0x2B, 0xC3, 2, "sub ax, bx"),
    (0x2B, 0xFE, 2, "sub di, si"),
    (0x2C, 0x00, 2, "sub al, 0"),
    (0x2C, 0x46, 2, "sub al, 70"),
    (0x2C, 0x86, 2, "sub al, 134"),
    (0x2C, 0xC3, 2, "sub al, 195"),
    (0x2C, 0xFE, 2, "sub al, 254"),
    (0x2D, 0x00, 3, "sub ax, 13312"),
    (0x2D, 0x46, 3, "sub ax, 13382"),
    (0x2D, 0x86, 3, "sub ax, 13446"),
    (0x2D, 0xC3, 3, "sub ax, 13507"),
    (0x2D, 0xFE, 3, "sub ax, 13566"),
    (0x2E, 0x00, 1, "segment cs"),
    (0x2E, 0x46, 1, "segment cs"),
    (0x2E, 0x86, 1, "segment cs"),
    (0x2E, 0xC3, 1, "segment cs"),
    (0x2E, 0xFE, 1, "segment cs"),
    (0x2F, 0x00, 1, "das "),
    (0x2F, 0x46, 1, "das "),
    (0x2F, 0x86, 1, "das "),
    (0x2F, 0xC3, 1, "das "),
    (0x2F, 0xFE, 1, "das "),
    (0x30, 0x00, 2, "xor [bx+si], al"),
    (0x30, 0x46, 3, "xor [bp+52], al"),
    (0x30, 0x86, 4, "xor [bp+4660], al"),
    (0x30, 0xC3, 2, "xor bl, al"),
    (0x30, 0xFE, 2, "xor dh, bh"),
    (0x31, 0x00, 2, "xor [bx+si], ax"),
    (0x31, 0x46, 3, "xor [bp+52], ax"),
    (0x31, 0x86, 4, "xor [bp+4660], ax"),
    (0x31, 0xC3, 2, "xor bx, ax"),
    (0x31, 0xFE, 2, "xor si, di"),
    (0x32, 0x00, 2, "xor al, [bx+si]"),
    (0x32, 0x46, 3, "xor al, [bp+52]"),
    (0x32, 0x86, 4, "xor al, [bp+4660]"),
    (0x32, 0xC3, 2, "xor al, bl"),
    (0x32, 0xFE, 2, "xor bh, dh"),
    (0x33, 0x00, 2, "xor ax, [bx+si]"),
    (0x33, 0x46, 3, "xor ax, [bp+52]"),
    (0x33, 0x86, 4, "xor ax, [bp+4660]"),
    (0x33, 0xC3, 2, "xor ax, bx"),
    (0x33, 0xFE, 2, "xor di, si"),
    (0x34, 0x00, 2, "xor al, 0"),
    (0x34, 0x46, 2, "xor al, 70"),
    (0x34, 0x86, 2, "xor al, 134"),
    (0x34, 0xC3, 2, "xor al, 195"),
    (0x34, 0xFE, 2, "xor al, 254"),
    (0x35, 0x00, 3, "xor ax, 13312"),
    (0x35, 0x46, 3, "xor ax, 13382"),
    (0x35, 0x86, 3, "xor ax, 13446"),
    (0x35, 0xC3, 3, "xor ax, 13507"),
    (0x35, 0xFE, 3, "xor ax, 13566"),
    (0x36, 0x00, 1, "segment ss"),
    (0x36, 0x46, 1, "segment ss"),
    (0x36, 0x86, 1, "segment ss"),
    (0x36, 0xC3, 1, "segment ss"),
    (0x36, 0xFE, 1, "segment ss"),
    (0x37, 0x00, 1, "aaa "),
    (0x37, 0x46, 1, "aaa "),
    (0x37, 0x86, 1, "aaa "),
    (0x37, 0xC3, 1, "aaa "),
    (0x37, 0xFE, 1, "aaa "),
    (0x38, 0x00, 2, "cmp [bx+si], al"),
    (0x38, 0x46, 3, "cmp [bp+52], al"),
    (0x38, 0x86, 4, "cmp [bp+4660], al"),
    (0x38, 0xC3, 2, "cmp bl, al"),
    (0x38, 0xFE, 2, "cmp dh, bh"),
    (0x39, 0x00, 2, "cmp [bx+si], ax"),
    (0x39, 0x46, 3, "cmp [bp+52], ax"),
    (0x39, 0x86, 4, "cmp [bp+4660], ax"),
    (0x39, 0xC3, 2, "cmp bx, ax"),
    (0x39, 0xFE, 2, "cmp si, di"),
    (0x3A, 0x00, 2, "cmp al, [bx+si]"),
    (0x3A, 0x46, 3, "cmp al, [bp+52]"),
    (0x3A, 0x86, 4, "cmp al, [bp+4660]"),
    (0x3A, 0xC3, 2, "cmp al, bl"),
    (0x3A, 0xFE, 2, "cmp bh, dh"),
    (0x3B, 0x00, 2, "cmp ax, [bx+si]"),
    (0x3B, 0x46, 3, "cmp ax, [bp+52]"),
    (0x3B, 0x86, 4, "cmp ax, [bp+4660]"),
    (0x3B, 0xC3, 2, "cmp ax, bx"),
    (0x3B, 0xFE, 2, "cmp di, si"),
    (0x3C, 0x00, 2, "cmp al, 0"),
    (0x3C, 0x46, 2, "cmp al, 70"),
    (0x3C, 0x86, 2, "cmp al, 134"),
    (0x3C, 0xC3, 2, "cmp al, 195"),
    (0x3C, 0xFE, 2, "cmp al, 254"),
    (0x3D, 0x00, 3, "cmp ax, 13312"),
    (0x3D, 0x46, 3, "cmp ax, 13382"),
    (0x3D, 0x86, 3, "cmp ax, 13446"),
    (0x3D, 0xC3, 3, "cmp ax, 13507"),
    (0x3D, 0xFE, 3, "cmp ax, 13566"),
    (0x3E, 0x00, 1, "segment ds"),
    (0x3E, 0x46, 1, "segment ds"),
    (0x3E, 0x86, 1, "segment ds"),
    (0x3E, 0xC3, 1, "segment ds"),
    (0x3E, 0xFE, 1, "segment ds"),
    (0x3F, 0x00, 1, "aas "),
    (0x3F, 0x46, 1, "aas "),
    (0x3F, 0x86, 1, "aas "),
    (0x3F, 0xC3, 1, "aas "),
    (0x3F, 0xFE, 1, "aas "),
    (0x40, 0x00, 1, "inc ax"),
    (0x40, 0x46, 1, "inc ax"),
    (0x40, 0x86, 1, "inc ax"),
    (0x40, 0xC3, 1, "inc ax"),
    (0x40, 0xFE, 1, "inc ax"),
    (0x41, 0x00, 1, "inc cx"),
    (0x41, 0x46, 1, "inc cx"),
    (0x41, 0x86, 1, "inc cx"),
    (0x41, 0xC3, 1, "inc cx"),
    (0x41, 0xFE, 1, "inc cx"),
    (0x42, 0x00, 1, "inc dx"),
    (0x42, 0x46, 1, "inc dx"),
    (0x42, 0x86, 1, "inc dx"),
    (0x42, 0xC3, 1, "inc dx"),
    (0x42, 0xFE, 1, "inc dx"),
    (0x43, 0x00, 1, "inc bx"),
    (0x43, 0x46, 1, "inc bx"),
    (0x43, 0x86, 1, "inc bx"),
    (0x43, 0xC3, 1, "inc bx"),
    (0x43, 0xFE, 1, "inc bx"),
    (0x44, 0x00, 1, "inc sp"),
    (0x44, 0x46, 1, "inc sp"),
    (0x44, 0x86, 1, "inc sp"),
    (0x44, 0xC3, 1, "inc sp"),
    (0x44, 0xFE, 1, "inc sp"),
    (0x45, 0x00, 1, "inc bp"),
    (0x45, 0x46, 1, "inc bp"),
    (0x45, 0x86, 1, "inc bp"),
    (0x45, 0xC3, 1, "inc bp"),
    (0x45, 0xFE, 1, "inc bp"),
    (0x46, 0x00, 1, "inc si"),
    (0x46, 0x46, 1, "inc si"),
    (0x46, 0x86, 1, "inc si"),
    (0x46, 0xC3, 1, "inc si"),
    (0x46, 0xFE, 1, "inc si"),
    (0x47, 0x00, 1, "inc di"),
    (0x47, 0x46, 1, "inc di"),
    (0x47, 0x86, 1, "inc di"),
    (0x47, 0xC3, 1, "inc di"),
    (0x47, 0xFE, 1, "inc di"),
    (0x48, 0x00, 1, "dec ax"),
    (0x48, 0x46, 1, "dec ax"),
    (0x48, 0x86, 1, "dec ax"),
    (0x48, 0xC3, 1, "dec ax"),
    (0x48, 0xFE, 1, "dec ax"),
    (0x49, 0x00, 1, "dec cx"),
    (0x49, 0x46, 1, "dec cx"),
    (0x49, 0x86, 1, "dec cx"),
    (0x49, 0xC3, 1, "dec cx"),
    (0x49, 0xFE, 1, "dec cx"),
    (0x4A, 0x00, 1, "dec dx"),
    (0x4A, 0x46, 1, "dec dx"),
    (0x4A, 0x86, 1, "dec dx"),
    (0x4A, 0xC3, 1, "dec dx"),
    (0x4A, 0xFE, 1, "dec dx"),
    (0x4B, 0x00, 1, "dec bx"),
    (0x4B, 0x46, 1, "dec bx"),
    (0x4B, 0x86, 1, "dec bx"),
    (0x4B, 0xC3, 1, "dec bx"),
    (0x4B, 0xFE, 1, "dec bx"),
    (0x4C, 0x00, 1, "dec sp"),
    (0x4C, 0x46, 1, "dec sp"),
    (0x4C, 0x86, 1, "dec sp"),
    (0x4C, 0xC3, 1, "dec sp"),
    (0x4C, 0xFE, 1, "dec sp"),
    (0x4D, 0x00, 1, "dec bp"),
    (0x4D, 0x46, 1, "dec bp"),
    (0x4D, 0x86, 1, "dec bp"),
    (0x4D, 0xC3, 1, "dec bp"),
    (0x4D, 0xFE, 1, "dec bp"),
    (0x4E, 0x00, 1, "dec si"),
    (0x4E, 0x46, 1, "dec si"),
    (0x4E, 0x86, 1, "dec si"),
    (0x4E, 0xC3, 1, "dec si"),
    (0x4E, 0xFE, 1, "dec si"),
    (0x4F, 0x00, 1, "dec di"),
    (0x4F, 0x46, 1, "dec di"),
    (0x4F, 0x86, 1, "dec di"),
    (0x4F, 0xC3, 1, "dec di"),
    (0x4F, 0xFE, 1, "dec di"),
    (0x50, 0x00, 1, "push ax"),
    (0x50, 0x46, 1, "push ax"),
    (0x50, 0x86, 1, "push ax"),
    (0x50, 0xC3, 1, "push ax"),
    (0x50, 0xFE, 1, "push ax"),
    (0x51, 0x00, 1, "push cx"),
    (0x51, 0x46, 1, "push cx"),
    (0x51, 0x86, 1, "push cx"),
    (0x51, 0xC3, 1, "push cx"),
    (0x51, 0xFE, 1, "push cx"),
    (0x52, 0x00, 1, "push dx"),
    (0x52, 0x46, 1, "push dx"),
    (0x52, 0x86, 1, "push dx"),
    (0x52, 0xC3, 1, "push dx"),
    (0x52, 0xFE, 1, "push dx"),
    (0x53, 0x00, 1, "push bx"),
    (0x53, 0x46, 1, "push bx"),
    (0x53, 0x86, 1, "push bx"),
    (0x53, 0xC3, 1, "push bx"),
    (0x53, 0xFE, 1, "push bx"),
    (0x54, 0x00, 1, "push sp"),
    (0x54, 0x46, 1, "push sp"),
    (0x54, 0x86, 1, "push sp"),
    (0x54, 0xC3, 1, "push sp"),
    (0x54, 0xFE, 1, "push sp"),
    (0x55, 0x00, 1, "push bp"),
    (0x55, 0x46, 1, "push bp"),
    (0x55, 0x86, 1, "push bp"),
    (0x55, 0xC3, 1, "push bp"),
    (0x55, 0xFE, 1, "push bp"),
    (0x56, 0x00, 1, "push si"),
    (0x56, 0x46, 1, "push si"),
    (0x56, 0x86, 1, "push si"),
    (0x56, 0xC3, 1, "push si"),
    (0x56, 0xFE, 1, "push si"),
    (0x57, 0x00, 1, "push di"),
    (0x57, 0x46, 1, "push di"),
    (0x57, 0x86, 1, "push di"),
    (0x57, 0xC3, 1, "push di"),
    (0x57, 0xFE, 1, "push di"),
    (0x58, 0x00, 1, "pop ax"),
    (0x58, 0x46, 1, "pop ax"),
    (0x58, 0x86, 1, "pop ax"),
    (0x58, 0xC3, 1, "pop ax"),
    (0x58, 0xFE, 1, "pop ax"),
    (0x59, 0x00, 1, "pop cx"),
    (0x59, 0x46, 1, "pop cx"),
    (0x59, 0x86, 1, "pop cx"),
    (0x59, 0xC3, 1, "pop cx"),
    (0x59, 0xFE, 1, "pop cx"),
    (0x5A, 0x00, 1, "pop dx"),
    (0x5A, 0x46, 1, "pop dx"),
    (0x5A, 0x86, 1, "pop dx"),
    (0x5A, 0xC3, 1, "pop dx"),
    (0x5A, 0xFE, 1, "pop dx"),
    (0x5B, 0x00, 1, "pop bx"),
    (0x5B, 0x46, 1, "pop bx"),
    (0x5B, 0x86, 1, "pop bx"),
    (0x5B, 0xC3, 1, "pop bx"),
    (0x5B, 0xFE, 1, "pop bx"),
    (0x5C, 0x00, 1, "pop sp"),
    (0x5C, 0x46, 1, "pop sp"),
    (0x5C, 0x86, 1, "pop sp"),
    (0x5C, 0xC3, 1, "pop sp"),
    (0x5C, 0xFE, 1, "pop sp"),
    (0x5D, 0x00, 1, "pop bp"),
    (0x5D, 0x46, 1, "pop bp"),
    (0x5D, 0x86, 1, "pop bp"),
    (0x5D, 0xC3, 1, "pop bp"),
    (0x5D, 0xFE, 1, "pop bp"),
    (0x5E, 0x00, 1, "pop si"),
    (0x5E, 0x46, 1, "pop si"),
    (0x5E, 0x86, 1, "pop si"),
    (0x5E, 0xC3, 1, "pop si"),
    (0x5E, 0xFE, 1, "pop si"),
    (0x5F, 0x00, 1, "pop di"),
    (0x5F, 0x46, 1, "pop di"),
    (0x5F, 0x86, 1, "pop di"),
    (0x5F, 0xC3, 1, "pop di"),
    (0x5F, 0xFE, 1, "pop di"),
    (0x60, 0x00, 0, " "),
    (0x60, 0x46, 0, " "),
    (0x60, 0x86, 0, " "),
    (0x60, 0xC3, 0, " "),
    (0x60, 0xFE, 0, " "),
    (0x61, 0x00, 0, " "),
    (0x61, 0x46, 0, " "),
    (0x61, 0x86, 0, " "),
    (0x61, 0xC3, 0, " "),
    (0x61, 0xFE, 0, " "),
    (0x62, 0x00, 0, " "),
    (0x62, 0x46, 0, " "),
    (0x62, 0x86, 0, " "),
    (0x62, 0xC3, 0, " "),
    (0x62, 0xFE, 0, " "),
    (0x63, 0x00, 0, " "),
    (0x63, 0x46, 0, " "),
    (0x63, 0x86, 0, " "),
    (0x63, 0xC3, 0, " "),
    (0x63, 0xFE, 0, " "),
    (0x64, 0x00, 0, " "),
    (0x64, 0x46, 0, " "),
    (0x64, 0x86, 0, " "),
    (0x64, 0xC3, 0, " "),
    (0x64, 0xFE, 0, " "),
    (0x65, 0x00, 0, " "),
    (0x65, 0x46, 0, " "),
    (0x65, 0x86, 0, " "),
    (0x65, 0xC3, 0, " "),
    (0x65, 0xFE, 0, " "),
    (0x66, 0x00, 0, " "),
    (0x66, 0x46, 0, " "),
    (0x66, 0x86, 0, " "),
    (0x66, 0xC3, 0, " "),
    (0x66, 0xFE, 0, " "),
    (0x67, 0x00, 0, " "),
    (0x67, 0x46, 0, " "),
    (0x67, 0x86, 0, " "),
    (0x67, 0xC3, 0, " "),
    (0x67, 0xFE, 0, " "),
    (0x68, 0x00, 0, " "),
    (0x68, 0x46, 0, " "),
    (0x68, 0x86, 0, " "),
    (0x68, 0xC3, 0, " "),
    (0x68, 0xFE, 0, " "),
    (0x69, 0x00, 0, " "),
    (0x69, 0x46, 0, " "),
    (0x69, 0x86, 0, " "),
    (0x69, 0xC3, 0, " "),
    (0x69, 0xFE, 0, " "),
    (0x6A, 0x00, 0, " "),
    (0x6A, 0x46, 0, " "),
    (0x6A, 0x86, 0, " "),
    (0x6A, 0xC3, 0, " "),
    (0x6A, 0xFE, 0, " "),
    (0x6B, 0x00, 0, " "),
    (0x6B, 0x46, 0, " "),
    (0x6B, 0x86, 0, " "),
    (0x6B, 0xC3, 0, " "),
    (0x6B, 0xFE, 0, " "),
    (0x6C, 0x00, 0, " "),
    (0x6C, 0x46, 0, " "),
    (0x6C, 0x86, 0, " "),
    (0x6C, 0xC3, 0, " "),
    (0x6C, 0xFE, 0, " "),
    (0x6D, 0x00, 0, " "),
    (0x6D, 0x46, 0, " "),
    (0x6D, 0x86, 0, " "),
    (0x6D, 0xC3, 0, " "),
    (0x6D, 0xFE, 0, " "),
    (0x6E, 0x00, 0, " "),
    (0x6E, 0x46, 0, " "),
    (0x6E, 0x86, 0, " "),
    (0x6E, 0xC3, 0, " "),
    (0x6E, 0xFE, 0, " "),
    (0x6F, 0x00, 0, " "),
    (0x6F, 0x46, 0, " "),
    (0x6F, 0x86, 0, " "),
    (0x6F, 0xC3, 0, " "),
    (0x6F, 0xFE, 0, " "),
    (0x70, 0x00, 2, "jo $+2"),
    (0x70, 0x46, 2, "jo $+72"),
    (0x70, 0x86, 2, "jo $-120"),
    (0x70, 0xC3, 2, "jo $-59"),
    (0x70, 0xFE, 2, "jo $+0"),
    (0x71, 0x00, 2, "jno $+2"),
    (0x71, 0x46, 2, "jno $+72"),
    (0x71, 0x86, 2, "jno $-120"),
    (0x71, 0xC3, 2, "jno $-59"),
    (0x71, 0xFE, 2, "jno $+0"),
    (0x72, 0x00, 2, "jb $+2"),
    (0x72, 0x46, 2, "jb $+72"),
    (0x72, 0x86, 2, "jb $-120"),
    (0x72, 0xC3, 2, "jb $-59"),
    (0x72, 0xFE, 2, "jb $+0"),
    (0x73, 0x00, 2, "jnb $+2"),
    (0x73, 0x46, 2, "jnb $+72"),
    (0x73, 0x86, 2, "jnb $-120"),
    (0x73, 0xC3, 2, "jnb $-59"),
    (0x73, 0xFE, 2, "jnb $+0"),
    (0x74, 0x00, 2, "je $+2"),
    (0x74, 0x46, 2, "je $+72"),
    (0x74, 0x86, 2, "je $-120"),
    (0x74, 0xC3, 2, "je $-59"),
    (0x74, 0xFE, 2, "je $+0"),
    (0x75, 0x00, 2, "jne $+2"),
    (0x75, 0x46, 2, "jne $+72"),
    (0x75, 0x86, 2, "jne $-120"),
    (0x75, 0xC3, 2, "jne $-59"),
    (0x75, 0xFE, 2, "jne $+0"),
    (0x76, 0x00, 2, "jbe $+2"),
    (0x76, 0x46, 2, "jbe $+72"),
    (0x76, 0x86, 2, "jbe $-120"),
    (0x76, 0xC3, 2, "jbe $-59"),
    (0x76, 0xFE, 2, "jbe $+0"),
    (0x77, 0x00, 2, "ja $+2"),
    (0x77, 0x46, 2, "ja $+72"),
    (0x77, 0x86, 2, "ja $-120"),
    (0x77, 0xC3, 2, "ja $-59"),
    (0x77, 0xFE, 2, "ja $+0"),
    (0x78, 0x00, 2, "js $+2"),
    (0x78, 0x46, 2, "js $+72"),
    (0x78, 0x86, 2, "js $-120"),
    (0x78, 0xC3, 2, "js $-59"),
    (0x78, 0xFE, 2, "js $+0"),
    (0x79, 0x00, 2, "jns $+2"),
    (0x79, 0x46, 2, "jns $+72"),
    (0x79, 0x86, 2, "jns $-120"),
    (0x79, 0xC3, 2, "jns $-59"),
    (0x79, 0xFE, 2, "jns $+0"),
    (0x7A, 0x00, 2, "jp $+2"),
    (0x7A, 0x46, 2, "jp $+72"),
    (0x7A, 0x86, 2, "jp $-120"),
    (0x7A, 0xC3, 2, "jp $-59"),
    (0x7A, 0xFE, 2, "jp $+0"),
    (0x7B, 0x00, 2, "jnp $+2"),
    (0x7B, 0x46, 2, "jnp $+72"),
    (0x7B, 0x86, 2, "jnp $-120"),
    (0x7B, 0xC3, 2, "jnp $-59"),
    (0x7B, 0xFE, 2, "jnp $+0"),
    (0x7C, 0x00, 2, "jl $+2"),
    (0x7C, 0x46, 2, "jl $+72"),
    (0x7C, 0x86, 2, "jl $-120"),
    (0x7C, 0xC3, 2, "jl $-59"),
    (0x7C, 0xFE, 2, "jl $+0"),
    (0x7D, 0x00, 2, "jnl $+2"),
    (0x7D, 0x46, 2, "jnl $+72"),
    (0x7D, 0x86, 2, "jnl $-120"),
    (0x7D, 0xC3, 2, "jnl $-59"),
    (0x7D, 0xFE, 2, "jnl $+0"),
    (0x7E, 0x00, 2, "jle $+2"),
    (0x7E, 0x46, 2, "jle $+72"),
    (0x7E, 0x86, 2, "jle $-120"),
    (0x7E, 0xC3, 2, "jle $-59"),
    (0x7E, 0xFE, 2, "jle $+0"),
    (0x7F, 0x00, 2, "jg $+2"),
    (0x7F, 0x46, 2, "jg $+72"),
    (0x7F, 0x86, 2, "jg $-120"),
    (0x7F, 0xC3, 2, "jg $-59"),
    (0x7F, 0xFE, 2, "jg $+0"),
    (0x80, 0x00, 3, "add byte [bx+si], 52"),
    (0x80, 0x46, 4, "add byte [bp+52], 18"),
    (0x80, 0x86, 5, "add byte [bp+4660], 120"),
    (0x80, 0xC3, 3, "add bl, 52"),
    (0x80, 0xFE, 3, "cmp dh, 52"),
    (0x81, 0x00, 4, "add word [bx+si], 4660"),
    (0x81, 0x46, 5, "add word [bp+52], 30738"),
    (0x81, 0x86, 6, "add word [bp+4660], 22136"),
    (0x81, 0xC3, 4, "add bx, 4660"),
    (0x81, 0xFE, 4, "cmp si, 4660"),
    (0x82, 0x00, 3, "add byte [bx+si], 52"),
    (0x82, 0x46, 4, "add byte [bp+52], 18"),
    (0x82, 0x86, 5, "add byte [bp+4660], 120"),
    (0x82, 0xC3, 3, "add bl, 52"),
    (0x82, 0xFE, 3, "cmp dh, 52"),
    (0x83, 0x00, 3, "add word [bx+si], 52"),
    (0x83, 0x46, 4, "add word [bp+52], 18"),
    (0x83, 0x86, 5, "add word [bp+4660], 120"),
    (0x83, 0xC3, 3, "add bx, 52"),
    (0x83, 0xFE, 3, "cmp si, 52"),
    (0x84, 0x00, 2, "test [bx+si], al"),
    (0x84, 0x46, 3, "test [bp+52], al"),
    (0x84, 0x86, 4, "test [bp+4660], al"),
    (0x84, 0xC3, 2, "test bl, al"),
    (0x84, 0xFE, 2, "test dh, bh"),
    (0x85, 0x00, 2, "test [bx+si], ax"),
    (0x85, 0x46, 3, "test [bp+52], ax"),
    (0x85, 0x86, 4, "test [bp+4660], ax"),
    (0x85, 0xC3, 2, "test bx, ax"),
    (0x85, 0xFE, 2, "test si, di"),
    (0x86, 0x00, 2, "xchg al, [bx+si]"),
    (0x86, 0x46, 3, "xchg al, [bp+52]"),
    (0x86, 0x86, 4, "xchg al, [bp+4660]"),
    (0x86, 0xC3, 2, "xchg al, bl"),
    (0x86, 0xFE, 2, "xchg bh, dh"),
    (0x87, 0x00, 2, "xchg ax, [bx+si]"),
    (0x87, 0x46, 3, "xchg ax, [bp+52]"),
    (0x87, 0x86, 4, "xchg ax, [bp+4660]"),
    (0x87, 0xC3, 2, "xchg ax, bx"),
    (0x87, 0xFE, 2, "xchg di, si"),
    (0x88, 0x00, 2, "mov [bx+si], al"),
    (0x88, 0x46, 3, "mov [bp+52], al"),
    (0x88, 0x86, 4, "mov [bp+4660], al"),
    (0x88, 0xC3, 2, "mov bl, al"),
    (0x88, 0xFE, 2, "mov dh, bh"),
    (0x89, 0x00, 2, "mov [bx+si], ax"),
    (0x89, 0x46, 3, "mov [bp+52], ax"),
    (0x89, 0x86, 4, "mov [bp+4660], ax"),
    (0x89, 0xC3, 2, "mov bx, ax"),
    (0x89, 0xFE, 2, "mov si, di"),
    (0x8A, 0x00, 2, "mov al, [bx+si]"),
    (0x8A, 0x46, 3, "mov al, [bp+52]"),
    (0x8A, 0x86, 4, "mov al, [bp+4660]"),
    (0x8A, 0xC3, 2, "mov al, bl"),
    (0x8A, 0xFE, 2, "mov bh, dh"),
    (0x8B, 0x00, 2, "mov ax, [bx+si]"),
    (0x8B, 0x46, 3, "mov ax, [bp+52]"),
    (0x8B, 0x86, 4, "mov ax, [bp+4660]"),
    (0x8B, 0xC3, 2, "mov ax, bx"),
    (0x8B, 0xFE, 2, "mov di, si"),
    (0x8C, 0x00, 2, "mov [bx+si], es"),
    (0x8C, 0x46, 3, "mov [bp+52], es"),
    (0x8C, 0x86, 4, "mov [bp+4660], es"),
    (0x8C, 0xC3, 2, "mov bl, es"),
    (0x8C, 0xFE, 0, " "),
    (0x8D, 0x00, 2, "lea ax, [bx+si]"),
    (0x8D, 0x46, 3, "lea ax, [bp+52]"),
    (0x8D, 0x86, 4, "lea ax, [bp+4660]"),
    (0x8D, 0xC3, 2, "lea ax, bx"),
    (0x8D, 0xFE, 2, "lea di, si"),
    (0x8E, 0x00, 2, "mov es, [bx+si]"),
    (0x8E, 0x46, 3, "mov es, [bp+52]"),
    (0x8E, 0x86, 4, "mov es, [bp+4660]"),
    (0x8E, 0xC3, 2, "mov es, bl"),
    (0x8E, 0xFE, 0, " "),
    (0x8F, 0x00, 2, "pop word [bx+si]"),
    (0x8F, 0x46, 3, "pop word [bp+52]"),
    (0x8F, 0x86, 4, "pop word [bp+4660]"),
    (0x8F, 0xC3, 2, "pop bx"),
    (0x8F, 0xFE, 0, " "),
    (0x90, 0x00, 1, "xchg ax, ax"),
    (0x90, 0x46, 1, "xchg ax, ax"),
    (0x90, 0x86, 1, "xchg ax, ax"),
    (0x90, 0xC3, 1, "xchg ax, ax"),
    (0x90, 0xFE, 1, "xchg ax, ax"),
    (0x91, 0x00, 1, "xchg ax, cx"),
    (0x91, 0x46, 1, "xchg ax, cx"),
    (0x91, 0x86, 1, "xchg ax, cx"),
    (0x91, 0xC3, 1, "xchg ax, cx"),
    (0x91, 0xFE, 1, "xchg ax, cx"),
    (0x92, 0x00, 1, "xchg ax, dx"),
    (0x92, 0x46, 1, "xchg ax, dx"),
    (0x92, 0x86, 1, "xchg ax, dx"),
    (0x92, 0xC3, 1, "xchg ax, dx"),
    (0x92, 0xFE, 1, "xchg ax, dx"),
    (0x93, 0x00, 1, "xchg ax, bx"),
    (0x93, 0x46, 1, "xchg ax, bx"),
    (0x93, 0x86, 1, "xchg ax, bx"),
    (0x93, 0xC3, 1, "xchg ax, bx"),
    (0x93, 0xFE, 1, "xchg ax, bx"),
    (0x94, 0x00, 1, "xchg ax, sp"),
    (0x94, 0x46, 1, "xchg ax, sp"),
    (0x94, 0x86, 1, "xchg ax, sp"),
    (0x94, 0xC3, 1, "xchg ax, sp"),
    (0x94, 0xFE, 1, "xchg ax, sp"),
    (0x95, 0x00, 1, "xchg ax, bp"),
    (0x95, 0x46, 1, "xchg ax, bp"),
    (0x95, 0x86, 1, "xchg ax, bp"),
    (0x95, 0xC3, 1, "xchg ax, bp"),
    (0x95, 0xFE, 1, "xchg ax, bp"),
    (0x96, 0x00, 1, "xchg ax, si"),
    (0x96, 0x46, 1, "xchg ax, si"),
    (0x96, 0x86, 1, "xchg ax, si"),
    (0x96, 0xC3, 1, "xchg ax, si"),
    (0x96, 0xFE, 1, "xchg ax, si"),
    (0x97, 0x00, 1, "xchg ax, di"),
    (0x97, 0x46, 1, "xchg ax, di"),
    (0x97, 0x86, 1, "xchg ax, di"),
    (0x97, 0xC3, 1, "xchg ax, di"),
    (0x97, 0xFE, 1, "xchg ax, di"),
    (0x98, 0x00, 1, "cbw "),
    (0x98, 0x46, 1, "cbw "),
    (0x98, 0x86, 1, "cbw "),
    (0x98, 0xC3, 1, "cbw "),
    (0x98, 0xFE, 1, "cbw "),
    (0x99, 0x00, 1, "cwd "),
    (0x99, 0x46, 1, "cwd "),
    (0x99, 0x86, 1, "cwd "),
    (0x99, 0xC3, 1, "cwd "),
    (0x99, 0xFE, 1, "cwd "),
    (0x9A, 0x00, 3, "call 52"),
    (0x9A, 0x46, 3, "call 52"),
    (0x9A, 0x86, 3, "call 52"),
    (0x9A, 0xC3, 3, "call 52"),
    (0x9A, 0xFE, 3, "call 52"),
    (0x9B, 0x00, 1, "wait "),
    (0x9B, 0x46, 1, "wait "),
    (0x9B, 0x86, 1, "wait "),
    (0x9B, 0xC3, 1, "wait "),
    (0x9B, 0xFE, 1, "wait "),
    (0x9C, 0x00, 1, "pushf "),
    (0x9C, 0x46, 1, "pushf "),
    (0x9C, 0x86, 1, "pushf "),
    (0x9C, 0xC3, 1, "pushf "),
    (0x9C, 0xFE, 1, "pushf "),
    (0x9D, 0x00, 1, "popf "),
    (0x9D, 0x46, 1, "popf "),
    (0x9D, 0x86, 1, "popf "),
    (0x9D, 0xC3, 1, "popf "),
    (0x9D, 0xFE, 1, "popf "),
    (0x9E, 0x00, 1, "sahf "),
    (0x9E, 0x46, 1, "sahf "),
    (0x9E, 0x86, 1, "sahf "),
    (0x9E, 0xC3, 1, "sahf "),
    (0x9E, 0xFE, 1, "sahf "),
    (0x9F, 0x00, 1, "lahf "),
    (0x9F, 0x46, 1, "lahf "),
    (0x9F, 0x86, 1, "lahf "),
    (0x9F, 0xC3, 1, "lahf "),
    (0x9F, 0xFE, 1, "lahf "),
    (0xA0, 0x00, 3, "mov al, [+13312]"),
    (0xA0, 0x46, 3, "mov al, [+13382]"),
    (0xA0, 0x86, 3, "mov al, [+13446]"),
    (0xA0, 0xC3, 3, "mov al, [+13507]"),
    (0xA0, 0xFE, 3, "mov al, [+13566]"),
    (0xA1, 0x00, 3, "mov ax, [+13312]"),
    (0xA1, 0x46, 3, "mov ax, [+13382]"),
    (0xA1, 0x86, 3, "mov ax, [+13446]"),
    (0xA1, 0xC3, 3, "mov ax, [+13507]"),
    (0xA1, 0xFE, 3, "mov ax, [+13566]"),
    (0xA2, 0x00, 3, "mov [+13312], al"),
    (0xA2, 0x46, 3, "mov [+13382], al"),
    (0xA2, 0x86, 3, "mov [+13446], al"),
    (0xA2, 0xC3, 3, "mov [+13507], al"),
    (0xA2, 0xFE, 3, "mov [+13566], al"),
    (0xA3, 0x00, 3, "mov [+13312], ax"),
    (0xA3, 0x46, 3, "mov [+13382], ax"),
    (0xA3, 0x86, 3, "mov [+13446], ax"),
    (0xA3, 0xC3, 3, "mov [+13507], ax"),
    (0xA3, 0xFE, 3, "mov [+13566], ax"),
    (0xA4, 0x00, 1, "movs "),
    (0xA4, 0x46, 1, "movs "),
    (0xA4, 0x86, 1, "movs "),
    (0xA4, 0xC3, 1, "movs "),
    (0xA4, 0xFE, 1, "movs "),
    (0xA5, 0x00, 1, "movs "),
    (0xA5, 0x46, 1, "movs "),
    (0xA5, 0x86, 1, "movs "),
    (0xA5, 0xC3, 1, "movs "),
    (0xA5, 0xFE, 1, "movs "),
    (0xA6, 0x00, 1, "cmps "),
    (0xA6, 0x46, 1, "cmps "),
    (0xA6, 0x86, 1, "cmps "),
    (0xA6, 0xC3, 1, "cmps "),
    (0xA6, 0xFE, 1, "cmps "),
    (0xA7, 0x00, 1, "cmps "),
    (0xA7, 0x46, 1, "cmps "),
    (0xA7, 0x86, 1, "cmps "),
    (0xA7, 0xC3, 1, "cmps "),
    (0xA7, 0xFE, 1, "cmps "),
    (0xA8, 0x00, 2, "test al, 0"),
    (0xA8, 0x46, 2, "test al, 70"),
    (0xA8, 0x86, 2, "test al, 134"),
    (0xA8, 0xC3, 2, "test al, 195"),
    (0xA8, 0xFE, 2, "test al, 254"),
    (0xA9, 0x00, 3, "test ax, 13312"),
    (0xA9, 0x46, 3, "test ax, 13382"),
    (0xA9, 0x86, 3, "test ax, 13446"),
    (0xA9, 0xC3, 3, "test ax, 13507"),
    (0xA9, 0xFE, 3, "test ax, 13566"),
    (0xAA, 0x00, 1, "stos "),
    (0xAA, 0x46, 1, "stos "),
    (0xAA, 0x86, 1, "stos "),
    (0xAA, 0xC3, 1, "stos "),
    (0xAA, 0xFE, 1, "stos "),
    (0xAB, 0x00, 1, "stos "),
    (0xAB, 0x46, 1, "stos "),
    (0xAB, 0x86, 1, "stos "),
    (0xAB, 0xC3, 1, "stos "),
    (0xAB, 0xFE, 1, "stos "),
    (0xAC, 0x00, 1, "lods "),
    (0xAC, 0x46, 1, "lods "),
    (0xAC, 0x86, 1, "lods "),
    (0xAC, 0xC3, 1, "lods "),
    (0xAC, 0xFE, 1, "lods "),
    (0xAD, 0x00, 1, "lods "),
    (0xAD, 0x46, 1, "lods "),
    (0xAD, 0x86, 1, "lods "),
    (0xAD, 0xC3, 1, "lods "),
    (0xAD, 0xFE, 1, "lods "),
    (0xAE, 0x00, 1, "scas "),
    (0xAE, 0x46, 1, "scas "),
    (0xAE, 0x86, 1, "scas "),
    (0xAE, 0xC3, 1, "scas "),
    (0xAE, 0xFE, 1, "scas "),
    (0xAF, 0x00, 1, "scas "),
    (0xAF, 0x46, 1, "scas "),
    (0xAF, 0x86, 1, "scas "),
    (0xAF, 0xC3, 1, "scas "),
    (0xAF, 0xFE, 1, "scas "),
    (0xB0, 0x00, 2, "mov al, 0"),
    (0xB0, 0x46, 2, "mov al, 70"),
    (0xB0, 0x86, 2, "mov al, 134"),
    (0xB0, 0xC3, 2, "mov al, 195"),
    (0xB0, 0xFE, 2, "mov al, 254"),
    (0xB1, 0x00, 2, "mov cl, 0"),
    (0xB1, 0x46, 2, "mov cl, 70"),
    (0xB1, 0x86, 2, "mov cl, 134"),
    (0xB1, 0xC3, 2, "mov cl, 195"),
    (0xB1, 0xFE, 2, "mov cl, 254"),
    (0xB2, 0x00, 2, "mov dl, 0"),
    (0xB2, 0x46, 2, "mov dl, 70"),
    (0xB2, 0x86, 2, "mov dl, 134"),
    (0xB2, 0xC3, 2, "mov dl, 195"),
    (0xB2, 0xFE, 2, "mov dl, 254"),
    (0xB3, 0x00, 2, "mov bl, 0"),
    (0xB3, 0x46, 2, "mov bl, 70"),
    (0xB3, 0x86, 2, "mov bl, 134"),
    (0xB3, 0xC3, 2, "mov bl, 195"),
    (0xB3, 0xFE, 2, "mov bl, 254"),
    (0xB4, 0x00, 2, "mov ah, 0"),
    (0xB4, 0x46, 2, "mov ah, 70"),
    (0xB4, 0x86, 2, "mov ah, 134"),
    (0xB4, 0xC3, 2, "mov ah, 195"),
    (0xB4, 0xFE, 2, "mov ah, 254"),
    (0xB5, 0x00, 2, "mov ch, 0"),
    (0xB5, 0x46, 2, "mov ch, 70"),
    (0xB5, 0x86, 2, "mov ch, 134"),
    (0xB5, 0xC3, 2, "mov ch, 195"),
    (0xB5, 0xFE, 2, "mov ch, 254"),
    (0xB6, 0x00, 2, "mov dh, 0"),
    (0xB6, 0x46, 2, "mov dh, 70"),
    (0xB6, 0x86, 2, "mov dh, 134"),
    (0xB6, 0xC3, 2, "mov dh, 195"),
    (0xB6, 0xFE, 2, "mov dh, 254"),
    (0xB7, 0x00, 2, "mov bh, 0"),
    (0xB7, 0x46, 2, "mov bh, 70"),
    (0xB7, 0x86, 2, "mov bh, 134"),
    (0xB7, 0xC3, 2, "mov bh, 195"),
    (0xB7, 0xFE, 2, "mov bh, 254"),
    (0xB8, 0x00, 3, "mov ax, 13312"),
    (0xB8, 0x46, 3, "mov ax, 13382"),
    (0xB8, 0x86, 3, "mov ax, 13446"),
    (0xB8, 0xC3, 3, "mov ax, 13507"),
    (0xB8, 0xFE, 3, "mov ax, 13566"),
    (0xB9, 0x00, 3, "mov cx, 13312"),
    (0xB9, 0x46, 3, "mov cx, 13382"),
    (0xB9, 0x86, 3, "mov cx, 13446"),
    (0xB9, 0xC3, 3, "mov cx, 13507"),
    (0xB9, 0xFE, 3, "mov cx, 13566"),
    (0xBA, 0x00, 3, "mov dx, 13312"),
    (0xBA, 0x46, 3, "mov dx, 13382"),
    (0xBA, 0x86, 3, "mov dx, 13446"),
    (0xBA, 0xC3, 3, "mov dx, 13507"),
    (0xBA, 0xFE, 3, "mov dx, 13566"),
    (0xBB, 0x00, 3, "mov bx, 13312"),
    (0xBB, 0x46, 3, "mov bx, 13382"),
    (0xBB, 0x86, 3, "mov bx, 13446"),
    (0xBB, 0xC3, 3, "mov bx, 13507"),
    (0xBB, 0xFE, 3, "mov bx, 13566"),
    (0xBC, 0x00, 3, "mov sp, 13312"),
    (0xBC, 0x46, 3, "mov sp, 13382"),
    (0xBC, 0x86, 3, "mov sp, 13446"),
    (0xBC, 0xC3, 3, "mov sp, 13507"),
    (0xBC, 0xFE, 3, "mov sp, 13566"),
    (0xBD, 0x00, 3, "mov bp, 13312"),
    (0xBD, 0x46, 3, "mov bp, 13382"),
    (0xBD, 0x86, 3, "mov bp, 13446"),
    (0xBD, 0xC3, 3, "mov bp, 13507"),
    (0xBD, 0xFE, 3, "mov bp, 13566"),
    (0xBE, 0x00, 3, "mov si, 13312"),
    (0xBE, 0x46, 3, "mov si, 13382"),
    (0xBE, 0x86, 3, "mov si, 13446"),
    (0xBE, 0xC3, 3, "mov si, 13507"),
    (0xBE, 0xFE, 3, "mov si, 13566"),
    (0xBF, 0x00, 3, "mov di, 13312"),
    (0xBF, 0x46, 3, "mov di, 13382"),
    (0xBF, 0x86, 3, "mov di, 13446"),
    (0xBF, 0xC3, 3, "mov di, 13507"),
    (0xBF, 0xFE, 3, "mov di, 13566"),
    (0xC0, 0x00, 0, " "),
    (0xC0, 0x46, 0, " "),
    (0xC0, 0x86, 0, " "),
    (0xC0, 0xC3, 0, " "),
    (0xC0, 0xFE, 0, " "),
    (0xC1, 0x00, 0, " "),
    (0xC1, 0x46, 0, " "),
    (0xC1, 0x86, 0, " "),
    (0xC1, 0xC3, 0, " "),
    (0xC1, 0xFE, 0, " "),
    (0xC2, 0x00, 3, "ret 13312"),
    (0xC2, 0x46, 3, "ret 13382"),
    (0xC2, 0x86, 3, "ret 13446"),
    (0xC2, 0xC3, 3, "ret 13507"),
    (0xC2, 0xFE, 3, "ret 13566"),
    (0xC3, 0x00, 1, "ret "),
    (0xC3, 0x46, 1, "ret "),
    (0xC3, 0x86, 1, "ret "),
    (0xC3, 0xC3, 1, "ret "),
    (0xC3, 0xFE, 1, "ret "),
    (0xC4, 0x00, 2, "les ax, [bx+si]"),
    (0xC4, 0x46, 3, "les ax, [bp+52]"),
    (0xC4, 0x86, 4, "les ax, [bp+4660]"),
    (0xC4, 0xC3, 2, "les ax, bx"),
    (0xC4, 0xFE, 2, "les di, si"),
    (0xC5, 0x00, 2, "lds ax, [bx+si]"),
    (0xC5, 0x46, 3, "lds ax, [bp+52]"),
    (0xC5, 0x86, 4, "lds ax, [bp+4660]"),
    (0xC5, 0xC3, 2, "lds ax, bx"),
    (0xC5, 0xFE, 2, "lds di, si"),
    (0xC6, 0x00, 3, "mov byte [bx+si], 52"),
    (0xC6, 0x46, 4, "mov byte [bp+52], 18"),
    (0xC6, 0x86, 5, "mov byte [bp+4660], 120"),
    (0xC6, 0xC3, 3, "mov bl, 52"),
    (0xC6, 0xFE, 0, " "),
    (0xC7, 0x00, 4, "mov word [bx+si], 4660"),
    (0xC7, 0x46, 5, "mov word [bp+52], 30738"),
    (0xC7, 0x86, 6, "mov word [bp+4660], 22136"),
    (0xC7, 0xC3, 4, "mov bx, 4660"),
    (0xC7, 0xFE, 0, " "),
    (0xC8, 0x00, 0, " "),
    (0xC8, 0x46, 0, " "),
    (0xC8, 0x86, 0, " "),
    (0xC8, 0xC3, 0, " "),
    (0xC8, 0xFE, 0, " "),
    (0xC9, 0x00, 0, " "),
    (0xC9, 0x46, 0, " "),
    (0xC9, 0x86, 0, " "),
    (0xC9, 0xC3, 0, " "),
    (0xC9, 0xFE, 0, " "),
    (0xCA, 0x00, 3, "ret 13312"),
    (0xCA, 0x46, 3, "ret 13382"),
    (0xCA, 0x86, 3, "ret 13446"),
    (0xCA, 0xC3, 3, "ret 13507"),
    (0xCA, 0xFE, 3, "ret 13566"),
    (0xCB, 0x00, 1, "ret "),
    (0xCB, 0x46, 1, "ret "),
    (0xCB, 0x86, 1, "ret "),
    (0xCB, 0xC3, 1, "ret "),
    (0xCB, 0xFE, 1, "ret "),
    (0xCC, 0x00, 1, "int3 "),
    (0xCC, 0x46, 1, "int3 "),
    (0xCC, 0x86, 1, "int3 "),
    (0xCC, 0xC3, 1, "int3 "),
    (0xCC, 0xFE, 1, "int3 "),
    (0xCD, 0x00, 2, "int 0"),
    (0xCD, 0x46, 2, "int 70"),
    (0xCD, 0x86, 2, "int 134"),
    (0xCD, 0xC3, 2, "int 195"),
    (0xCD, 0xFE, 2, "int 254"),
    (0xCE, 0x00, 1, "into "),
    (0xCE, 0x46, 1, "into "),
    (0xCE, 0x86, 1, "into "),
    (0xCE, 0xC3, 1, "into "),
    (0xCE, 0xFE, 1, "into "),
    (0xCF, 0x00, 1, "iret "),
    (0xCF, 0x46, 1, "iret "),
    (0xCF, 0x86, 1, "iret "),
    (0xCF, 0xC3, 1, "iret "),
    (0xCF, 0xFE, 1, "iret "),
    (0xD0, 0x00, 2, "rol byte [bx+si], 1"),
    (0xD0, 0x46, 3, "rol byte [bp+52], 1"),
    (0xD0, 0x86, 4, "rol byte [bp+4660], 1"),
    (0xD0, 0xC3, 2, "rol bl, 1"),
    (0xD0, 0xFE, 2, "sar dh, 1"),
    (0xD1, 0x00, 2, "rol word [bx+si], 1"),
    (0xD1, 0x46, 3, "rol word [bp+52], 1"),
    (0xD1, 0x86, 4, "rol word [bp+4660], 1"),
    (0xD1, 0xC3, 2, "rol bx, 1"),
    (0xD1, 0xFE, 2, "sar si, 1"),
    (0xD2, 0x00, 2, "rol [bx+si], cl"),
    (0xD2, 0x46, 3, "rol [bp+52], cl"),
    (0xD2, 0x86, 4, "rol [bp+4660], cl"),
    (0xD2, 0xC3, 2, "rol bl, cl"),
    (0xD2, 0xFE, 2, "sar dh, cl"),
    (0xD3, 0x00, 2, "rol [bx+si], cl"),
    (0xD3, 0x46, 3, "rol [bp+52], cl"),
    (0xD3, 0x86, 4, "rol [bp+4660], cl"),
    (0xD3, 0xC3, 2, "rol bx, cl"),
    (0xD3, 0xFE, 2, "sar si, cl"),
    (0xD4, 0x00, 0, " "),
    (0xD4, 0x46, 0, " "),
    (0xD4, 0x86, 0, " "),
    (0xD4, 0xC3, 0, " "),
    (0xD4, 0xFE, 0, " "),
    (0xD5, 0x00, 0, " "),
    (0xD5, 0x46, 0, " "),
    (0xD5, 0x86, 0, " "),
    (0xD5, 0xC3, 0, " "),
    (0xD5, 0xFE, 0, " "),
    (0xD6, 0x00, 0, " "),
    (0xD6, 0x46, 0, " "),
    (0xD6, 0x86, 0, " "),
    (0xD6, 0xC3, 0, " "),
    (0xD6, 0xFE, 0, " "),
    (0xD7, 0x00, 1, "xlat "),
    (0xD7, 0x46, 1, "xlat "),
    (0xD7, 0x86, 1, "xlat "),
    (0xD7, 0xC3, 1, "xlat "),
    (0xD7, 0xFE, 1, "xlat "),
    (0xD8, 0x00, 2, "esc byte [bx+si]"),
    (0xD8, 0x46, 3, "esc byte [bp+52]"),
    (0xD8, 0x86, 4, "esc byte [bp+4660]"),
    (0xD8, 0xC3, 2, "esc bl"),
    (0xD8, 0xFE, 2, "esc dh"),
    (0xD9, 0x00, 2, "esc byte [bx+si]"),
    (0xD9, 0x46, 3, "esc byte [bp+52]"),
    (0xD9, 0x86, 4, "esc byte [bp+4660]"),
    (0xD9, 0xC3, 2, "esc bl"),
    (0xD9, 0xFE, 2, "esc dh"),
    (0xDA, 0x00, 2, "esc byte [bx+si]"),
    (0xDA, 0x46, 3, "esc byte [bp+52]"),
    (0xDA, 0x86, 4, "esc byte [bp+4660]"),
    (0xDA, 0xC3, 2, "esc bl"),
    (0xDA, 0xFE, 2, "esc dh"),
    (0xDB, 0x00, 2, "esc byte [bx+si]"),
    (0xDB, 0x46, 3, "esc byte [bp+52]"),
    (0xDB, 0x86, 4, "esc byte [bp+4660]"),
    (0xDB, 0xC3, 2, "esc bl"),
    (0xDB, 0xFE, 2, "esc dh"),
    (0xDC, 0x00, 2, "esc byte [bx+si]"),
    (0xDC, 0x46, 3, "esc byte [bp+52]"),
    (0xDC, 0x86, 4, "esc byte [bp+4660]"),
    (0xDC, 0xC3, 2, "esc bl"),
    (0xDC, 0xFE, 2, "esc dh"),
    (0xDD, 0x00, 2, "esc byte [bx+si]"),
    (0xDD, 0x46, 3, "esc byte [bp+52]"),
    (0xDD, 0x86, 4, "esc byte [bp+4660]"),
    (0xDD, 0xC3, 2, "esc bl"),
    (0xDD, 0xFE, 2, "esc dh"),
    (0xDE, 0x00, 2, "esc byte [bx+si]"),
    (0xDE, 0x46, 3, "esc byte [bp+52]"),
    (0xDE, 0x86, 4, "esc byte [bp+4660]"),
    (0xDE, 0xC3, 2, "esc bl"),
    (0xDE, 0xFE, 2, "esc dh"),
    (0xDF, 0x00, 2, "esc byte [bx+si]"),
    (0xDF, 0x46, 3, "esc byte [bp+52]"),
    (0xDF, 0x86, 4, "esc byte [bp+4660]"),
    (0xDF, 0xC3, 2, "esc bl"),
    (0xDF, 0xFE, 2, "esc dh"),
    (0xE0, 0x00, 2, "loopnz $+2"),
    (0xE0, 0x46, 2, "loopnz $+72"),
    (0xE0, 0x86, 2, "loopnz $-120"),
    (0xE0, 0xC3, 2, "loopnz $-59"),
    (0xE0, 0xFE, 2, "loopnz $+0"),
    (0xE1, 0x00, 2, "loopz $+2"),
    (0xE1, 0x46, 2, "loopz $+72"),
    (0xE1, 0x86, 2, "loopz $-120"),
    (0xE1, 0xC3, 2, "loopz $-59"),
    (0xE1, 0xFE, 2, "loopz $+0"),
    (0xE2, 0x00, 2, "loop $+2"),
    (0xE2, 0x46, 2, "loop $+72"),
    (0xE2, 0x86, 2, "loop $-120"),
    (0xE2, 0xC3, 2, "loop $-59"),
    (0xE2, 0xFE, 2, "loop $+0"),
    (0xE3, 0x00, 2, "jcxz $+2"),
    (0xE3, 0x46, 2, "jcxz $+72"),
    (0xE3, 0x86, 2, "jcxz $-120"),
    (0xE3, 0xC3, 2, "jcxz $-59"),
    (0xE3, 0xFE, 2, "jcxz $+0"),
    (0xE4, 0x00, 2, "in al, 0"),
    (0xE4, 0x46, 2, "in al, 70"),
    (0xE4, 0x86, 2, "in al, 134"),
    (0xE4, 0xC3, 2, "in al, 195"),
    (0xE4, 0xFE, 2, "in al, 254"),
    (0xE5, 0x00, 2, "in ax, 0"),
    (0xE5, 0x46, 2, "in ax, 70"),
    (0xE5, 0x86, 2, "in ax, 134"),
    (0xE5, 0xC3, 2, "in ax, 195"),
    (0xE5, 0xFE, 2, "in ax, 254"),
    (0xE6, 0x00, 2, "out 0, al"),
    (0xE6, 0x46, 2, "out 70, al"),
    (0xE6, 0x86, 2, "out 134, al"),
    (0xE6, 0xC3, 2, "out 195, al"),
    (0xE6, 0xFE, 2, "out 254, al"),
    (0xE7, 0x00, 2, "out 0, ax"),
    (0xE7, 0x46, 2, "out 70, ax"),
    (0xE7, 0x86, 2, "out 134, ax"),
    (0xE7, 0xC3, 2, "out 195, ax"),
    (0xE7, 0xFE, 2, "out 254, ax"),
    (0xE8, 0x00, 2, "call "),
    (0xE8, 0x46, 2, "call "),
    (0xE8, 0x86, 2, "call "),
    (0xE8, 0xC3, 2, "call "),
    (0xE8, 0xFE, 2, "call "),
    (0xE9, 0x00, 2, "jmp "),
    (0xE9, 0x46, 2, "jmp "),
    (0xE9, 0x86, 2, "jmp "),
    (0xE9, 0xC3, 2, "jmp "),
    (0xE9, 0xFE, 2, "jmp "),
    (0xEA, 0x00, 3, "jmp 52"),
    (0xEA, 0x46, 3, "jmp 52"),
    (0xEA, 0x86, 3, "jmp 52"),
    (0xEA, 0xC3, 3, "jmp 52"),
    (0xEA, 0xFE, 3, "jmp 52"),
    (0xEB, 0x00, 2, "jmp "),
    (0xEB, 0x46, 2, "jmp "),
    (0xEB, 0x86, 2, "jmp "),
    (0xEB, 0xC3, 2, "jmp "),
    (0xEB, 0xFE, 2, "jmp "),
    (0xEC, 0x00, 1, "in al, dx"),
    (0xEC, 0x46, 1, "in al, dx"),
    (0xEC, 0x86, 1, "in al, dx"),
    (0xEC, 0xC3, 1, "in al, dx"),
    (0xEC, 0xFE, 1, "in al, dx"),
    (0xED, 0x00, 1, "in ax, dx"),
    (0xED, 0x46, 1, "in ax, dx"),
    (0xED, 0x86, 1, "in ax, dx"),
    (0xED, 0xC3, 1, "in ax, dx"),
    (0xED, 0xFE, 1, "in ax, dx"),
    (0xEE, 0x00, 1, "out dx, al"),
    (0xEE, 0x46, 1, "out dx, al"),
    (0xEE, 0x86, 1, "out dx, al"),
    (0xEE, 0xC3, 1, "out dx, al"),
    (0xEE, 0xFE, 1, "out dx, al"),
    (0xEF, 0x00, 1, "out dx, ax"),
    (0xEF, 0x46, 1, "out dx, ax"),
    (0xEF, 0x86, 1, "out dx, ax"),
    (0xEF, 0xC3, 1, "out dx, ax"),
    (0xEF, 0xFE, 1, "out dx, ax"),
    (0xF0, 0x00, 1, "lock "),
    (0xF0, 0x46, 1, "lock "),
    (0xF0, 0x86, 1, "lock "),
    (0xF0, 0xC3, 1, "lock "),
    (0xF0, 0xFE, 1, "lock "),
    (0xF1, 0x00, 0, " "),
    (0xF1, 0x46, 0, " "),
    (0xF1, 0x86, 0, " "),
    (0xF1, 0xC3, 0, " "),
    (0xF1, 0xFE, 0, " "),
    (0xF2, 0x00, 1, "rep "),
    (0xF2, 0x46, 1, "rep "),
    (0xF2, 0x86, 1, "rep "),
    (0xF2, 0xC3, 1, "rep "),
    (0xF2, 0xFE, 1, "rep "),
    (0xF3, 0x00, 1, "rep "),
    (0xF3, 0x46, 1, "rep "),
    (0xF3, 0x86, 1, "rep "),
    (0xF3, 0xC3, 1, "rep "),
    (0xF3, 0xFE, 1, "rep "),
    (0xF4, 0x00, 1, "hlt "),
    (0xF4, 0x46, 1, "hlt "),
    (0xF4, 0x86, 1, "hlt "),
    (0xF4, 0xC3, 1, "hlt "),
    (0xF4, 0xFE, 1, "hlt "),
    (0xF5, 0x00, 1, "cmc "),
    (0xF5, 0x46, 1, "cmc "),
    (0xF5, 0x86, 1, "cmc "),
    (0xF5, 0xC3, 1, "cmc "),
    (0xF5, 0xFE, 1, "cmc "),
    (0xF6, 0x00, 3, "test byte [bx+si], 52"),
    (0xF6, 0x46, 4, "test byte [bp+52], 18"),
    (0xF6, 0x86, 5, "test byte [bp+4660], 120"),
    (0xF6, 0xC3, 3, "test bl, 52"),
    (0xF6, 0xFE, 2, "idiv dh"),
    (0xF7, 0x00, 4, "test word [bx+si], 4660"),
    (0xF7, 0x46, 5, "test word [bp+52], 30738"),
    (0xF7, 0x86, 6, "test word [bp+4660], 22136"),
    (0xF7, 0xC3, 4, "test bx, 4660"),
    (0xF7, 0xFE, 2, "idiv si"),
    (0xF8, 0x00, 1, "clc "),
    (0xF8, 0x46, 1, "clc "),
    (0xF8, 0x86, 1, "clc "),
    (0xF8, 0xC3, 1, "clc "),
    (0xF8, 0xFE, 1, "clc "),
    (0xF9, 0x00, 1, "stc "),
    (0xF9, 0x46, 1, "stc "),
    (0xF9, 0x86, 1, "stc "),
    (0xF9, 0xC3, 1, "stc "),
    (0xF9, 0xFE, 1, "stc "),
    (0xFA, 0x00, 1, "cli "),
    (0xFA, 0x46, 1, "cli "),
    (0xFA, 0x86, 1, "cli "),
    (0xFA, 0xC3, 1, "cli "),
    (0xFA, 0xFE, 1, "cli "),
    (0xFB, 0x00, 1, "sti "),
    (0xFB, 0x46, 1, "sti "),
    (0xFB, 0x86, 1, "sti "),
    (0xFB, 0xC3, 1, "sti "),
    (0xFB, 0xFE, 1, "sti "),
    (0xFC, 0x00, 1, "cld "),
    (0xFC, 0x46, 1, "cld "),
    (0xFC, 0x86, 1, "cld "),
    (0xFC, 0xC3, 1, "cld "),
    (0xFC, 0xFE, 1, "cld "),
    (0xFD, 0x00, 1, "std "),
    (0xFD, 0x46, 1, "std "),
    (0xFD, 0x86, 1, "std "),
    (0xFD, 0xC3, 1, "std "),
    (0xFD, 0xFE, 1, "std "),
    (0xFE, 0x00, 2, "inc byte [bx+si]"),
    (0xFE, 0x46, 3, "inc byte [bp+52]"),
    (0xFE, 0x86, 4, "inc byte [bp+4660]"),
    (0xFE, 0xC3, 2, "inc bl"),
    (0xFE, 0xFE, 0, " "),
    (0xFF, 0x00, 2, "inc word [bx+si]"),
    (0xFF, 0x46, 3, "inc word [bp+52]"),
    (0xFF, 0x86, 4, "inc word [bp+4660]"),
    (0xFF, 0xC3, 2, "inc bx"),
    (0xFF, 0xFE, 0, " "),
];

#[test]
fn every_first_byte_decodes_as_listed() {
    let mut memory = Memory::new();
    for (first, second, size, text) in LISTING {
        let instruction = decode_with_tail(&mut memory, first, second);
        assert_eq!(instruction.size, size, "size of {:02X} {:02X}", first, second);
        assert_eq!(print_instruction(&instruction), text, "text of {:02X} {:02X}", first, second);
    }
}

/// FNV-1a over the lines `size|text` of all instructions whose first byte is
/// in `firsts`, for every second byte.
fn checksum(firsts: std::ops::Range<u32>) -> u64 {
    let mut memory = Memory::new();
    let mut hash = 0xcbf29ce484222325u64;
    for first in firsts {
        for second in 0..256u32 {
            let instruction = decode_with_tail(&mut memory, first as u8, second as u8);
            let line = format!("{}|{}\n", instruction.size, print_instruction(&instruction));
            for byte in line.as_bytes() {
                hash ^= *byte as u64;
                hash = hash.wrapping_mul(0x100000001b3);
            }
        }
    }
    hash
}

#[test]
fn checksum_of_first_bytes_00_to_3f() {
    assert_eq!(checksum(0x00..0x40), 0xa5395aef90b0cb61);
}

#[test]
fn checksum_of_first_bytes_40_to_7f() {
    assert_eq!(checksum(0x40..0x80), 0xbf3b60cb928cafb9);
}

#[test]
fn checksum_of_first_bytes_80_to_bf() {
    assert_eq!(checksum(0x80..0xC0), 0x70aad99a6e738f8b);
}

#[test]
fn checksum_of_first_bytes_c0_to_ff() {
    assert_eq!(checksum(0xC0..0x100), 0x8b7266e90b19990c);
}
