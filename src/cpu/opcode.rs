use vstd::prelude::*;

verus! {

/// Clocks an unprefixed opcode takes, with a conditional branch not taken.
/// For 0xcb this is the prefix alone; `cb_clocks` gives the whole.
pub open spec fn base_clocks(op: u8) -> u32 {
    let x = op / 64;
    let y = (op / 8) % 8;
    let z = op % 8;
    if x == 1 {
        if op == 0x76 {
            4
        } else if y == 6 || z == 6 {
            8
        } else {
            4
        }
    } else if x == 2 {
        if z == 6 {
            8
        } else {
            4
        }
    } else if x == 0 {
        if z == 0 {
            if y == 0 || y == 2 {
                4
            } else if y == 1 {
                20
            } else if y == 3 {
                12
            } else {
                8
            }
        } else if z == 1 {
            if y % 2 == 0 {
                12
            } else {
                8
            }
        } else if z == 2 || z == 3 {
            8
        } else if z == 4 || z == 5 {
            if y == 6 {
                12
            } else {
                4
            }
        } else if z == 6 {
            if y == 6 {
                12
            } else {
                8
            }
        } else {
            4
        }
    } else if z == 0 {
        if y < 4 {
            8
        } else if y == 5 {
            16
        } else {
            12
        }
    } else if z == 1 {
        if y % 2 == 0 {
            12
        } else if y == 1 || y == 3 {
            16
        } else if y == 5 {
            4
        } else {
            8
        }
    } else if z == 2 {
        if y < 4 {
            12
        } else if y == 5 || y == 7 {
            16
        } else {
            8
        }
    } else if z == 3 {
        if y == 0 {
            16
        } else if y == 1 || y == 6 || y == 7 {
            4
        } else {
            0
        }
    } else if z == 4 {
        if y < 4 {
            12
        } else {
            0
        }
    } else if z == 5 {
        if y % 2 == 0 {
            16
        } else if y == 1 {
            24
        } else {
            0
        }
    } else if z == 6 {
        8
    } else {
        16
    }
}

/// Clocks of a 0xcb-prefixed instruction, prefix included.
pub open spec fn cb_clocks(cb: u8) -> u32 {
    if cb % 8 == 6 {
        if cb / 64 == 1 {
            12
        } else {
            16
        }
    } else {
        8
    }
}

/// One opcode byte.
pub struct Opcode {
    code: u8,
}

impl View for Opcode {
    type V = u8;

    closed spec fn view(&self) -> u8 {
        self.code
    }
}

impl Opcode {
    pub fn new(code: u8) -> (r: Self)
        ensures
            r@ == code,
    {
        Opcode { code }
    }

    pub fn code(&self) -> (r: u8)
        ensures
            r == self@,
    {
        self.code
    }

    /// Clocks of the opcode, with a conditional branch not taken.
    pub fn clock(&self) -> (r: u32)
        ensures
            r == base_clocks(self@),
    {
        let op: u8 = self.code;
        let x: u8 = op / 64;
        let y: u8 = (op / 8) % 8;
        let z: u8 = op % 8;
        if x == 1 {
            if op == 0x76 {
                4
            } else if y == 6 || z == 6 {
                8
            } else {
                4
            }
        } else if x == 2 {
            if z == 6 {
                8
            } else {
                4
            }
        } else if x == 0 {
            if z == 0 {
                if y == 0 || y == 2 {
                    4
                } else if y == 1 {
                    20
                } else if y == 3 {
                    12
                } else {
                    8
                }
            } else if z == 1 {
                if y % 2 == 0 {
                    12
                } else {
                    8
                }
            } else if z == 2 || z == 3 {
                8
            } else if z == 4 || z == 5 {
                if y == 6 {
                    12
                } else {
                    4
                }
            } else if z == 6 {
                if y == 6 {
                    12
                } else {
                    8
                }
            } else {
                4
            }
        } else if z == 0 {
            if y < 4 {
                8
            } else if y == 5 {
                16
            } else {
                12
            }
        } else if z == 1 {
            if y % 2 == 0 {
                12
            } else if y == 1 || y == 3 {
                16
            } else if y == 5 {
                4
            } else {
                8
            }
        } else if z == 2 {
            if y < 4 {
                12
            } else if y == 5 || y == 7 {
                16
            } else {
                8
            }
        } else if z == 3 {
            if y == 0 {
                16
            } else if y == 1 || y == 6 || y == 7 {
                4
            } else {
                0
            }
        } else if z == 4 {
            if y < 4 {
                12
            } else {
                0
            }
        } else if z == 5 {
            if y % 2 == 0 {
                16
            } else if y == 1 {
                24
            } else {
                0
            }
        } else if z == 6 {
            8
        } else {
            16
        }
    }
}

/// Clocks of a 0xcb-prefixed instruction, prefix included.
pub fn cb_clock(cb: u8) -> (r: u32)
    ensures
        r == cb_clocks(cb),
{
    if cb % 8 == 6 {
        if cb / 64 == 1 {
            12
        } else {
            16
        }
    } else {
        8
    }
}

} // verus!
