//! Tests of the Otp model.

use rp2350sim_devices::otp::{ctrl, regs, status, Otp, OTP_BASE, OTP_ROWS};
use rp2350sim_devices::device::DeviceId;

#[test]
fn test_otp_creation() {
    let otp = Otp::new();

    // Should be readable by default
    assert_eq!(otp.ctrl & ctrl::READABLE, ctrl::READABLE);
    assert!(!otp.is_busy());
}

#[test]
fn test_otp_default() {
    let otp = Otp::default();
    assert_eq!(otp.ctrl & ctrl::READABLE, ctrl::READABLE);
}

#[test]
fn test_otp_ctrl_register() {
    let mut otp = Otp::new();

    // Set via CTRL_SET
    otp.write(OTP_BASE + regs::CTRL_SET, ctrl::WRITABLE);
    assert_eq!(otp.ctrl & ctrl::WRITABLE, ctrl::WRITABLE);

    // Clear via CTRL_CLR
    otp.write(OTP_BASE + regs::CTRL_CLR, ctrl::WRITABLE);
    assert_eq!(otp.ctrl & ctrl::WRITABLE, 0);
}

#[test]
fn test_otp_ce_register() {
    let mut otp = Otp::new();

    otp.write(OTP_BASE + regs::CE_SET, 1);
    assert_eq!(otp.ce, 1);

    otp.write(OTP_BASE + regs::CE_CLR, 1);
    assert_eq!(otp.ce, 0);
}

#[test]
fn test_otp_key_register() {
    let mut otp = Otp::new();

    // Key is write-only, read returns 0
    otp.write(OTP_BASE + regs::KEY_SET, 0xDEADBEEF);
    assert_eq!(otp.read(OTP_BASE + regs::KEY), 0);
    assert_eq!(otp.key, 0xDEADBEEF);

    // Status should show KEY_VALID
    assert_eq!(otp.read(OTP_BASE + regs::STATUS) & status::KEY_VALID, status::KEY_VALID);

    // Clear key
    otp.write(OTP_BASE + regs::KEY_CLR, 1);
    assert_eq!(otp.key, 0);
}

#[test]
fn test_otp_addr_register() {
    let mut otp = Otp::new();

    otp.write(OTP_BASE + regs::ADDR, 0x123);
    assert_eq!(otp.get_addr(), 0x123);

    // Only 12 bits valid
    otp.write(OTP_BASE + regs::ADDR, 0x1FFF);
    assert_eq!(otp.get_addr(), 0xFFF);
}

#[test]
fn test_otp_read_factory_data() {
    let otp = Otp::new();

    // Should have factory-programmed unique ID
    assert_eq!(otp.data_storage[1], 0xDEADBEEF);
    assert_eq!(otp.data_storage[2], 0xCAFEBABE);
    assert_eq!(otp.data_storage[3], 0x12345678);
}

#[test]
fn test_otp_read_data() {
    let mut otp = Otp::new();

    otp.set_addr(1);
    let data = otp.read_data();
    assert_eq!(data, 0xDEADBEEF);
}

#[test]
fn test_otp_write_needs_key() {
    let mut otp = Otp::new();

    otp.write(OTP_BASE + regs::CTRL_SET, ctrl::WRITABLE | ctrl::READABLE);
    otp.write(OTP_BASE + regs::ADDR, 0x100);

    // Without key, write should fail
    assert!(!otp.write_data(0x12345678));
    assert_eq!(otp.read_otp(0x100), 0);
}

#[test]
fn test_otp_write_needs_writable() {
    let mut otp = Otp::new();

    otp.write(OTP_BASE + regs::KEY_SET, 0xDEADBEEF);
    otp.write(OTP_BASE + regs::ADDR, 0x100);

    // Without WRITABLE flag, write should fail
    assert!(!otp.write_data(0x12345678));
}

#[test]
fn test_otp_write_success() {
    let mut otp = Otp::new();

    // Enable write and set key
    otp.write(OTP_BASE + regs::CTRL_SET, ctrl::WRITABLE | ctrl::READABLE);
    otp.write(OTP_BASE + regs::KEY_SET, 0xDEADBEEF);
    otp.write(OTP_BASE + regs::ADDR, 0x100);

    // Write should succeed
    assert!(otp.write_data(0x12345678));
    assert_eq!(otp.read_otp(0x100), 0x12345678);
}

#[test]
fn test_otp_write_once() {
    let mut otp = Otp::new();

    otp.write(OTP_BASE + regs::CTRL_SET, ctrl::WRITABLE);
    otp.write(OTP_BASE + regs::KEY_SET, 0xDEADBEEF);
    otp.write(OTP_BASE + regs::ADDR, 0x100);

    // First write
    assert!(otp.write_data(0xFFFFFFFF));

    // Try to write again - OTP can only change 1->0
    assert!(otp.write_data(0xAAAAAAAA));
    // Result should be AND of old and new
    assert_eq!(otp.read_otp(0x100), 0xAAAAAAAA);
}

#[test]
fn test_otp_page_lock() {
    let mut otp = Otp::new();

    otp.write(OTP_BASE + regs::CTRL_SET, ctrl::WRITABLE);
    otp.write(OTP_BASE + regs::KEY_SET, 0xDEADBEEF);

    // Lock page 4 (rows 256-319)
    otp.lock_page(4);

    // Try to write to locked page
    otp.write(OTP_BASE + regs::ADDR, 0x100); // Row 256 is in page 4
    assert!(!otp.write_data(0x12345678));

    // Unlock and try again
    otp.unlock_page(4);
    assert!(otp.write_data(0x12345678));
}

#[test]
fn test_otp_debug_lock() {
    let mut otp = Otp::new();

    // Enable write and set key
    otp.write(OTP_BASE + regs::CTRL_SET, ctrl::WRITABLE);
    otp.write(OTP_BASE + regs::KEY_SET, 0xDEADBEEF);

    // Lock via debug lock
    otp.write(OTP_BASE + regs::DBG_LOCK_SET, 1);
    assert_eq!(otp.read(OTP_BASE + regs::STATUS) & status::LOCKED, status::LOCKED);

    // Write should fail
    otp.write(OTP_BASE + regs::ADDR, 0x100);
    assert!(!otp.write_data(0x12345678));

    // Unlock
    otp.write(OTP_BASE + regs::DBG_LOCK_CLR, 1);
    assert_eq!(otp.read(OTP_BASE + regs::STATUS) & status::LOCKED, 0);
}

#[test]
fn test_otp_sw_lock_registers() {
    let mut otp = Otp::new();

    // Write to SW_LOCK0
    otp.write(OTP_BASE + regs::SW_LOCK0, 1);
    assert_eq!(otp.read(OTP_BASE + regs::SW_LOCK0), 1);

    // Write to SW_LOCK1
    otp.write(OTP_BASE + regs::SW_LOCK1, 1);
    assert_eq!(otp.read(OTP_BASE + regs::SW_LOCK1), 1);
}

#[test]
fn test_otp_invalid_address() {
    let mut otp = Otp::new();

    // Invalid read offset
    let result = otp.read(OTP_BASE + 0x1000);
    assert_eq!(result, 0);

    // Invalid write offset should be ignored
    otp.write(OTP_BASE + 0x1000, 0x12345678);
}

#[test]
fn test_otp_reset() {
    let mut otp = Otp::new();

    // Configure and write
    otp.write(OTP_BASE + regs::CTRL_SET, ctrl::WRITABLE);
    otp.write(OTP_BASE + regs::KEY_SET, 0xDEADBEEF);
    otp.write(OTP_BASE + regs::ADDR, 0x100);
    otp.write(OTP_BASE + regs::DATA, 0x12345678);

    // Reset
    otp.reset();

    // Check state is reset (except factory data)
    assert_eq!(otp.ctrl & ctrl::READABLE, ctrl::READABLE);
    assert_eq!(otp.key, 0);
    // Factory data preserved
    assert_eq!(otp.data_storage[1], 0xDEADBEEF);
    // Written data cleared
    assert_eq!(otp.read_otp(0x100), 0);
    assert!(!otp.written[0x100]);
}

#[test]
fn test_otp_device_id() {
    let otp = Otp::new();
    assert_eq!(otp.id(), DeviceId::OTP);
}

#[test]
fn test_otp_data_write_via_register() {
    let mut otp = Otp::new();

    otp.write(OTP_BASE + regs::CTRL_SET, ctrl::WRITABLE);
    otp.write(OTP_BASE + regs::KEY_SET, 0xDEADBEEF);
    otp.write(OTP_BASE + regs::ADDR, 0x200);
    otp.write(OTP_BASE + regs::DATA, 0xDEADC0DE);

    // Read back via DATA register
    let data = otp.read(OTP_BASE + regs::DATA);
    assert_eq!(data, 0xDEADC0DE);
}

#[test]
fn test_otp_not_readable() {
    let mut otp = Otp::new();

    // Clear readable flag
    otp.write(OTP_BASE + regs::CTRL_CLR, ctrl::READABLE);

    otp.set_addr(1);
    let data = otp.read_data();
    // Should return 0 when not readable
    assert_eq!(data, 0);
}

#[test]
fn test_otp_key_valid_status() {
    let mut otp = Otp::new();

    // Initially no key
    assert_eq!(otp.read(OTP_BASE + regs::STATUS) & status::KEY_VALID, 0);

    // Set key
    otp.write(OTP_BASE + regs::KEY_SET, 0xDEADBEEF);
    assert_eq!(otp.read(OTP_BASE + regs::STATUS) & status::KEY_VALID, status::KEY_VALID);

    // Wrong key
    otp.write(OTP_BASE + regs::KEY_SET, 0xBADC0DE);
    // KEY_VALID still set (any non-zero key sets it)
    assert_eq!(otp.read(OTP_BASE + regs::STATUS) & status::KEY_VALID, status::KEY_VALID);
}

#[test]
fn test_otp_page_boundaries() {
    let mut otp = Otp::new();

    otp.write(OTP_BASE + regs::CTRL_SET, ctrl::WRITABLE);
    otp.write(OTP_BASE + regs::KEY_SET, 0xDEADBEEF);

    // Lock page 0
    otp.lock_page(0);

    // Row 0 is in page 0, should be locked
    otp.write(OTP_BASE + regs::ADDR, 0);
    assert!(!otp.write_data(0x12345678));

    // Row 64 is in page 1, should be writable
    otp.write(OTP_BASE + regs::ADDR, 64);
    assert!(otp.write_data(0x12345678));
}

#[test]
fn test_otp_write_enable() {
    let mut otp = Otp::new();

    // Initially not writable
    otp.write(OTP_BASE + regs::ADDR, 0x100);
    otp.write(OTP_BASE + regs::KEY_SET, 0xDEADBEEF);
    assert!(!otp.write_data(0x12345678));

    // Enable write
    otp.write(OTP_BASE + regs::CTRL_SET, ctrl::WRITABLE);
    assert!(otp.write_data(0x12345678));

    // Disable write via CTRL_CLR
    otp.write(OTP_BASE + regs::ADDR, 0x110);
    otp.write(OTP_BASE + regs::CTRL_CLR, ctrl::WRITABLE);
    assert!(!otp.write_data(0xABCDEF00));

    // Re-enable via CTRL_SET
    otp.write(OTP_BASE + regs::CTRL_SET, ctrl::WRITABLE);
    assert!(otp.write_data(0xABCDEF00));
}

#[test]
fn test_otp_page_erase() {
    let mut otp = Otp::new();

    // Setup: enable write and key, write to a row
    otp.write(OTP_BASE + regs::CTRL_SET, ctrl::WRITABLE);
    otp.write(OTP_BASE + regs::KEY_SET, 0xDEADBEEF);
    otp.write(OTP_BASE + regs::ADDR, 0x100);
    assert!(otp.write_data(0xFFFFFFFF));

    // Note: RP2350 OTP does not support page erase
    // This test verifies that written data persists (OTP behavior)
    // CE register controls chip enable, not erase
    otp.write(OTP_BASE + regs::CE_SET, 0xFF);
    assert_eq!(otp.read_otp(0x100), 0xFFFFFFFF);

    // Clear CE and verify data still persists
    otp.write(OTP_BASE + regs::CE_CLR, 0xFF);
    assert_eq!(otp.read_otp(0x100), 0xFFFFFFFF);
}

#[test]
fn test_otp_read_row() {
    let mut otp = Otp::new();

    // Read factory rows (pre-programmed)
    assert_eq!(otp.read_otp(0), 0x00000000);
    assert_eq!(otp.read_otp(1), 0xDEADBEEF);
    assert_eq!(otp.read_otp(2), 0xCAFEBABE);
    assert_eq!(otp.read_otp(3), 0x12345678);

    // Read unwritten user area (should be 0)
    assert_eq!(otp.read_otp(4), 0);
    assert_eq!(otp.read_otp(0x100), 0);
    assert_eq!(otp.read_otp(0xFFF), 0); // Last valid row

    // Write to user area and read back
    otp.write(OTP_BASE + regs::CTRL_SET, ctrl::WRITABLE);
    otp.write(OTP_BASE + regs::KEY_SET, 0xDEADBEEF);
    otp.write(OTP_BASE + regs::ADDR, 0x200);
    otp.write_data(0xAABBCCDD);
    assert_eq!(otp.read_otp(0x200), 0xAABBCCDD);
}

#[test]
fn test_otp_key_write() {
    let mut otp = Otp::new();

    // Set key to correct value
    otp.write(OTP_BASE + regs::KEY_SET, 0xDEADBEEF);
    assert!(otp.is_key_valid());
    assert_eq!(otp.key, 0xDEADBEEF);

    // KEY register is write-only (reads as 0)
    assert_eq!(otp.read(OTP_BASE + regs::KEY), 0);

    // Write with correct key should succeed
    otp.write(OTP_BASE + regs::CTRL_SET, ctrl::WRITABLE);
    otp.write(OTP_BASE + regs::ADDR, 0x150);
    assert!(otp.write_data(0x11223344));

    // Clear key via KEY_CLR
    otp.write(OTP_BASE + regs::KEY_CLR, 1);
    assert_eq!(otp.key, 0);
    assert!(!otp.is_key_valid());

    // Write should fail without key
    otp.write(OTP_BASE + regs::ADDR, 0x160);
    assert!(!otp.write_data(0x55667788));

    // Set wrong key - write should fail (key check is 0xDEADBEEF)
    otp.write(OTP_BASE + regs::KEY_SET, 0xBADC0DE);
    otp.write(OTP_BASE + regs::ADDR, 0x170);
    assert!(!otp.write_data(0x99AABBCC));
}

#[test]
fn test_otp_factory_data() {
    let otp = Otp::new();

    // Factory data area: rows 0-3
    // Row 0: boot config (default 0)
    assert_eq!(otp.read_otp(0), 0x00000000);

    // Rows 1-3: unique ID (factory programmed)
    assert_eq!(otp.read_otp(1), 0xDEADBEEF);
    assert_eq!(otp.read_otp(2), 0xCAFEBABE);
    assert_eq!(otp.read_otp(3), 0x12345678);

    // Factory rows are marked as written
    assert!(otp.written[0]);
    assert!(otp.written[1]);
    assert!(otp.written[2]);
    assert!(otp.written[3]);

    // User area starts at row 4, not written yet
    assert!(!otp.written[4]);
}

#[test]
fn test_otp_user_area() {
    let mut otp = Otp::new();

    // User area: rows 4 to 4095
    // Verify initial state is all zeros and unwritten
    for row in [4usize, 100, 500, 1000, 4000, 4095] {
        assert_eq!(otp.read_otp(row as u32), 0);
        assert!(!otp.written[row]);
    }

    // Write to multiple user area rows
    otp.write(OTP_BASE + regs::CTRL_SET, ctrl::WRITABLE);
    otp.write(OTP_BASE + regs::KEY_SET, 0xDEADBEEF);

    for (row, value) in [(4usize, 0x11111111u32), (100, 0x22222222), (500, 0x33333333)] {
        otp.write(OTP_BASE + regs::ADDR, row as u32);
        assert!(otp.write_data(value));
        assert_eq!(otp.read_otp(row as u32), value);
        assert!(otp.written[row]);
    }

    // Verify OTP behavior: can only change 1->0 bits
    otp.write(OTP_BASE + regs::ADDR, 4);
    assert!(otp.write_data(0x10101010));
    assert_eq!(otp.read_otp(4), 0x10101010); // 0x11111111 & 0x10101010
}

#[test]
fn test_otp_lock() {
    let mut otp = Otp::new();

    // Setup for writes
    otp.write(OTP_BASE + regs::CTRL_SET, ctrl::WRITABLE);
    otp.write(OTP_BASE + regs::KEY_SET, 0xDEADBEEF);

    // Test software lock via lock_page()
    otp.lock_page(2); // Page 2 covers rows 128-191
    otp.write(OTP_BASE + regs::ADDR, 130);
    assert!(!otp.write_data(0xDEADBEEF)); // Should fail - page locked

    // Unlock page
    otp.unlock_page(2);
    assert!(otp.write_data(0xDEADBEEF)); // Should succeed now

    // Test software lock via register write
    otp.write(OTP_BASE + regs::SW_LOCK3, 1); // Page 3: rows 192-255
    otp.write(OTP_BASE + regs::ADDR, 200);
    assert!(!otp.write_data(0xCAFEBABE));
    assert_eq!(otp.read(OTP_BASE + regs::SW_LOCK3), 1);

    // Clear software lock via register
    otp.write(OTP_BASE + regs::SW_LOCK3, 0);
    assert!(otp.write_data(0xCAFEBABE));

    // Test debug lock
    otp.write(OTP_BASE + regs::ADDR, 300);
    otp.write(OTP_BASE + regs::DBG_LOCK_SET, 1);
    assert!(!otp.write_data(0x12345678));
    assert_eq!(otp.read(OTP_BASE + regs::STATUS) & status::LOCKED, status::LOCKED);

    // Clear debug lock
    otp.write(OTP_BASE + regs::DBG_LOCK_CLR, 0xFF);
    assert!(otp.write_data(0x12345678));
    assert_eq!(otp.read(OTP_BASE + regs::STATUS) & status::LOCKED, 0);
}

#[test]
fn test_otp_out_of_bounds() {
    let mut otp = Otp::new();

    // Out of bounds read returns 0
    assert_eq!(otp.read_otp(OTP_ROWS as u32), 0);
    assert_eq!(otp.read_otp(0xFFFFFFFF), 0);

    // Out of bounds write returns false
    assert!(!otp.write_otp(OTP_ROWS as u32, 0x12345678));
    assert!(!otp.write_otp(0xFFFFFFFF, 0xDEADBEEF));

    // is_valid_addr checks
    assert!(otp.is_valid_addr(0));
    assert!(otp.is_valid_addr((OTP_ROWS - 1) as u32));
    assert!(!otp.is_valid_addr(OTP_ROWS as u32));
    assert!(!otp.is_valid_addr(0xFFFFFFFF));
}

#[test]
fn test_otp_write_when_disabled() {
    let mut otp = Otp::new();

    // Test all failure modes for write_data
    otp.write(OTP_BASE + regs::ADDR, 0x100);

    // 1. No writable flag - should fail
    otp.write(OTP_BASE + regs::KEY_SET, 0xDEADBEEF);
    assert!(!otp.write_data(0x11111111));

    // 2. Page locked - should fail
    otp.write(OTP_BASE + regs::CTRL_SET, ctrl::WRITABLE);
    otp.lock_page(4); // Row 0x100 is in page 4
    assert!(!otp.write_data(0x22222222));
    otp.unlock_page(4);

    // 3. Invalid key - should fail
    otp.write(OTP_BASE + regs::KEY_CLR, 1);
    assert!(!otp.write_data(0x33333333));

    // 4. Debug locked - should fail
    otp.write(OTP_BASE + regs::KEY_SET, 0xDEADBEEF);
    otp.write(OTP_BASE + regs::DBG_LOCK_SET, 1);
    assert!(!otp.write_data(0x44444444));

    // 5. All conditions met - should succeed
    otp.write(OTP_BASE + regs::DBG_LOCK_CLR, 0xFF);
    assert!(otp.write_data(0x55555555));
}

