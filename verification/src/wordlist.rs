//! The word table and the table that inverts it.
//!
//! Every byte value has one word of four lowercase ASCII letters. No two
//! words share both their first and their last letter, so these two letters
//! alone lead back to the byte: they are hashed into an index of a second
//! table that holds the byte. A string that is no word at all may share its
//! outer letters with a word, or hash to an unused entry, so a lookup always
//! ends by comparing the whole word.
use vstd::prelude::*;

verus! {

/// The word of every byte value, as four ASCII letters.
pub const BYTE_WORDLIST: [[u8; 4]; 256] = [
    [0x61, 0x63, 0x69, 0x64],  // 0x00 acid
    [0x61, 0x6b, 0x69, 0x6e],  // 0x01 akin
    [0x61, 0x72, 0x63, 0x68],  // 0x02 arch
    [0x61, 0x74, 0x6f, 0x6d],  // 0x03 atom
    [0x61, 0x74, 0x6f, 0x70],  // 0x04 atop
    [0x61, 0x75, 0x6e, 0x74],  // 0x05 aunt
    [0x61, 0x77, 0x61, 0x79],  // 0x06 away
    [0x61, 0x78, 0x69, 0x73],  // 0x07 axis
    [0x62, 0x61, 0x63, 0x6b],  // 0x08 back
    [0x62, 0x61, 0x6c, 0x6c],  // 0x09 ball
    [0x62, 0x61, 0x72, 0x6e],  // 0x0a barn
    [0x62, 0x61, 0x74, 0x68],  // 0x0b bath
    [0x62, 0x65, 0x61, 0x6d],  // 0x0c beam
    [0x62, 0x65, 0x61, 0x72],  // 0x0d bear
    [0x62, 0x65, 0x65, 0x66],  // 0x0e beef
    [0x62, 0x65, 0x73, 0x74],  // 0x0f best
    [0x62, 0x69, 0x6b, 0x65],  // 0x10 bike
    [0x62, 0x69, 0x72, 0x64],  // 0x11 bird
    [0x62, 0x6c, 0x6f, 0x62],  // 0x12 blob
    [0x62, 0x6f, 0x73, 0x73],  // 0x13 boss
    [0x62, 0x75, 0x7a, 0x7a],  // 0x14 buzz
    [0x63, 0x61, 0x6c, 0x6c],  // 0x15 call
    [0x63, 0x61, 0x72, 0x64],  // 0x16 card
    [0x63, 0x61, 0x72, 0x74],  // 0x17 cart
    [0x63, 0x61, 0x73, 0x68],  // 0x18 cash
    [0x63, 0x68, 0x65, 0x66],  // 0x19 chef
    [0x63, 0x6c, 0x61, 0x6d],  // 0x1a clam
    [0x63, 0x6c, 0x61, 0x77],  // 0x1b claw
    [0x63, 0x6c, 0x61, 0x79],  // 0x1c clay
    [0x63, 0x6c, 0x69, 0x70],  // 0x1d clip
    [0x63, 0x6c, 0x75, 0x62],  // 0x1e club
    [0x63, 0x6f, 0x69, 0x6e],  // 0x1f coin
    [0x63, 0x6f, 0x6e, 0x65],  // 0x20 cone
    [0x63, 0x6f, 0x6f, 0x6b],  // 0x21 cook
    [0x64, 0x61, 0x72, 0x6b],  // 0x22 dark
    [0x64, 0x61, 0x72, 0x74],  // 0x23 dart
    [0x64, 0x61, 0x79, 0x73],  // 0x24 days
    [0x64, 0x65, 0x65, 0x70],  // 0x25 deep
    [0x64, 0x65, 0x6d, 0x6f],  // 0x26 demo
    [0x64, 0x69, 0x73, 0x63],  // 0x27 disc
    [0x64, 0x69, 0x73, 0x68],  // 0x28 dish
    [0x64, 0x69, 0x76, 0x65],  // 0x29 dive
    [0x64, 0x6f, 0x6c, 0x6c],  // 0x2a doll
    [0x64, 0x6f, 0x6f, 0x6d],  // 0x2b doom
    [0x64, 0x6f, 0x6f, 0x72],  // 0x2c door
    [0x64, 0x6f, 0x77, 0x6e],  // 0x2d down
    [0x64, 0x72, 0x61, 0x67],  // 0x2e drag
    [0x64, 0x72, 0x61, 0x77],  // 0x2f draw
    [0x64, 0x75, 0x74, 0x79],  // 0x30 duty
    [0x65, 0x61, 0x63, 0x68],  // 0x31 each
    [0x65, 0x61, 0x73, 0x79],  // 0x32 easy
    [0x65, 0x64, 0x67, 0x65],  // 0x33 edge
    [0x65, 0x67, 0x67, 0x73],  // 0x34 eggs
    [0x65, 0x70, 0x69, 0x63],  // 0x35 epic
    [0x65, 0x76, 0x65, 0x6e],  // 0x36 even
    [0x65, 0x78, 0x61, 0x6d],  // 0x37 exam
    [0x65, 0x78, 0x69, 0x74],  // 0x38 exit
    [0x65, 0x78, 0x70, 0x6f],  // 0x39 expo
    [0x66, 0x61, 0x73, 0x74],  // 0x3a fast
    [0x66, 0x61, 0x77, 0x6e],  // 0x3b fawn
    [0x66, 0x65, 0x61, 0x72],  // 0x3c fear
    [0x66, 0x69, 0x6e, 0x64],  // 0x3d find
    [0x66, 0x69, 0x72, 0x65],  // 0x3e fire
    [0x66, 0x69, 0x72, 0x6d],  // 0x3f firm
    [0x66, 0x69, 0x73, 0x68],  // 0x40 fish
    [0x66, 0x6c, 0x61, 0x77],  // 0x41 flaw
    [0x66, 0x6c, 0x65, 0x61],  // 0x42 flea
    [0x66, 0x6c, 0x75, 0x78],  // 0x43 flux
    [0x66, 0x6f, 0x6c, 0x6b],  // 0x44 folk
    [0x66, 0x72, 0x6f, 0x67],  // 0x45 frog
    [0x66, 0x75, 0x6c, 0x6c],  // 0x46 full
    [0x66, 0x75, 0x73, 0x73],  // 0x47 fuss
    [0x66, 0x75, 0x7a, 0x7a],  // 0x48 fuzz
    [0x67, 0x61, 0x69, 0x6e],  // 0x49 gain
    [0x67, 0x61, 0x6c, 0x61],  // 0x4a gala
    [0x67, 0x61, 0x73, 0x70],  // 0x4b gasp
    [0x67, 0x61, 0x74, 0x65],  // 0x4c gate
    [0x67, 0x69, 0x66, 0x74],  // 0x4d gift
    [0x67, 0x6c, 0x61, 0x64],  // 0x4e glad
    [0x67, 0x6c, 0x6f, 0x77],  // 0x4f glow
    [0x67, 0x6f, 0x6c, 0x66],  // 0x50 golf
    [0x67, 0x72, 0x61, 0x62],  // 0x51 grab
    [0x67, 0x72, 0x61, 0x6d],  // 0x52 gram
    [0x67, 0x75, 0x6c, 0x6c],  // 0x53 gull
    [0x67, 0x75, 0x73, 0x68],  // 0x54 gush
    [0x68, 0x61, 0x69, 0x6c],  // 0x55 hail
    [0x68, 0x61, 0x69, 0x72],  // 0x56 hair
    [0x68, 0x61, 0x6c, 0x66],  // 0x57 half
    [0x68, 0x61, 0x6c, 0x6f],  // 0x58 halo
    [0x68, 0x61, 0x6e, 0x67],  // 0x59 hang
    [0x68, 0x61, 0x72, 0x6d],  // 0x5a harm
    [0x68, 0x65, 0x72, 0x62],  // 0x5b herb
    [0x68, 0x69, 0x67, 0x68],  // 0x5c high
    [0x68, 0x6f, 0x6f, 0x64],  // 0x5d hood
    [0x68, 0x6f, 0x6f, 0x70],  // 0x5e hoop
    [0x68, 0x6f, 0x72, 0x6e],  // 0x5f horn
    [0x68, 0x6f, 0x73, 0x65],  // 0x60 hose
    [0x68, 0x6f, 0x73, 0x74],  // 0x61 host
    [0x68, 0x75, 0x6c, 0x61],  // 0x62 hula
    [0x68, 0x75, 0x73, 0x6b],  // 0x63 husk
    [0x69, 0x63, 0x6f, 0x6e],  // 0x64 icon
    [0x69, 0x64, 0x65, 0x61],  // 0x65 idea
    [0x69, 0x64, 0x6f, 0x6c],  // 0x66 idol
    [0x69, 0x6e, 0x74, 0x6f],  // 0x67 into
    [0x69, 0x72, 0x69, 0x73],  // 0x68 iris
    [0x69, 0x73, 0x6c, 0x65],  // 0x69 isle
    [0x69, 0x74, 0x65, 0x6d],  // 0x6a item
    [0x6a, 0x61, 0x64, 0x65],  // 0x6b jade
    [0x6a, 0x61, 0x7a, 0x7a],  // 0x6c jazz
    [0x6a, 0x65, 0x65, 0x70],  // 0x6d jeep
    [0x6a, 0x6f, 0x62, 0x73],  // 0x6e jobs
    [0x6a, 0x75, 0x6e, 0x6b],  // 0x6f junk
    [0x6a, 0x75, 0x72, 0x79],  // 0x70 jury
    [0x6a, 0x75, 0x73, 0x74],  // 0x71 just
    [0x6b, 0x61, 0x6c, 0x65],  // 0x72 kale
    [0x6b, 0x65, 0x65, 0x70],  // 0x73 keep
    [0x6b, 0x65, 0x79, 0x73],  // 0x74 keys
    [0x6b, 0x69, 0x6c, 0x6e],  // 0x75 kiln
    [0x6b, 0x69, 0x6c, 0x6f],  // 0x76 kilo
    [0x6b, 0x69, 0x6e, 0x64],  // 0x77 kind
    [0x6b, 0x69, 0x6e, 0x67],  // 0x78 king
    [0x6b, 0x6e, 0x6f, 0x62],  // 0x79 knob
    [0x6b, 0x6e, 0x6f, 0x74],  // 0x7a knot
    [0x6b, 0x6e, 0x6f, 0x77],  // 0x7b know
    [0x6c, 0x61, 0x63, 0x6b],  // 0x7c lack
    [0x6c, 0x61, 0x64, 0x79],  // 0x7d lady
    [0x6c, 0x61, 0x6e, 0x64],  // 0x7e land
    [0x6c, 0x69, 0x6d, 0x62],  // 0x7f limb
    [0x6c, 0x69, 0x6f, 0x6e],  // 0x80 lion
    [0x6c, 0x6f, 0x61, 0x66],  // 0x81 loaf
    [0x6c, 0x6f, 0x66, 0x74],  // 0x82 loft
    [0x6c, 0x6f, 0x67, 0x6f],  // 0x83 logo
    [0x6c, 0x6f, 0x73, 0x73],  // 0x84 loss
    [0x6c, 0x6f, 0x76, 0x65],  // 0x85 love
    [0x6c, 0x75, 0x6d, 0x70],  // 0x86 lump
    [0x6c, 0x75, 0x6e, 0x67],  // 0x87 lung
    [0x6d, 0x61, 0x64, 0x65],  // 0x88 made
    [0x6d, 0x61, 0x6c, 0x6c],  // 0x89 mall
    [0x6d, 0x61, 0x6e, 0x79],  // 0x8a many
    [0x6d, 0x61, 0x72, 0x6b],  // 0x8b mark
    [0x6d, 0x61, 0x73, 0x73],  // 0x8c mass
    [0x6d, 0x65, 0x61, 0x6e],  // 0x8d mean
    [0x6d, 0x65, 0x61, 0x74],  // 0x8e meat
    [0x6d, 0x65, 0x73, 0x68],  // 0x8f mesh
    [0x6d, 0x65, 0x74, 0x61],  // 0x90 meta
    [0x6e, 0x61, 0x76, 0x79],  // 0x91 navy
    [0x6e, 0x65, 0x61, 0x72],  // 0x92 near
    [0x6e, 0x65, 0x63, 0x6b],  // 0x93 neck
    [0x6e, 0x65, 0x77, 0x73],  // 0x94 news
    [0x6e, 0x69, 0x6e, 0x65],  // 0x95 nine
    [0x6e, 0x6f, 0x72, 0x6d],  // 0x96 norm
    [0x6e, 0x6f, 0x75, 0x6e],  // 0x97 noun
    [0x6f, 0x61, 0x6b, 0x73],  // 0x98 oaks
    [0x6f, 0x62, 0x65, 0x79],  // 0x99 obey
    [0x6f, 0x64, 0x6f, 0x72],  // 0x9a odor
    [0x6f, 0x67, 0x72, 0x65],  // 0x9b ogre
    [0x6f, 0x6d, 0x69, 0x74],  // 0x9c omit
    [0x6f, 0x6e, 0x74, 0x6f],  // 0x9d onto
    [0x6f, 0x72, 0x63, 0x61],  // 0x9e orca
    [0x6f, 0x76, 0x61, 0x6c],  // 0x9f oval
    [0x6f, 0x78, 0x65, 0x6e],  // 0xa0 oxen
    [0x70, 0x61, 0x67, 0x65],  // 0xa1 page
    [0x70, 0x61, 0x69, 0x6e],  // 0xa2 pain
    [0x70, 0x61, 0x74, 0x68],  // 0xa3 path
    [0x70, 0x65, 0x61, 0x72],  // 0xa4 pear
    [0x70, 0x65, 0x65, 0x6c],  // 0xa5 peel
    [0x70, 0x6c, 0x6f, 0x77],  // 0xa6 plow
    [0x70, 0x6c, 0x75, 0x67],  // 0xa7 plug
    [0x70, 0x6c, 0x75, 0x73],  // 0xa8 plus
    [0x70, 0x6f, 0x65, 0x6d],  // 0xa9 poem
    [0x70, 0x6f, 0x6e, 0x64],  // 0xaa pond
    [0x70, 0x6f, 0x6e, 0x79],  // 0xab pony
    [0x70, 0x6f, 0x72, 0x6b],  // 0xac pork
    [0x70, 0x6f, 0x72, 0x74],  // 0xad port
    [0x70, 0x72, 0x6f, 0x70],  // 0xae prop
    [0x71, 0x75, 0x61, 0x64],  // 0xaf quad
    [0x71, 0x75, 0x61, 0x79],  // 0xb0 quay
    [0x71, 0x75, 0x69, 0x74],  // 0xb1 quit
    [0x71, 0x75, 0x69, 0x7a],  // 0xb2 quiz
    [0x72, 0x61, 0x67, 0x65],  // 0xb3 rage
    [0x72, 0x61, 0x69, 0x6e],  // 0xb4 rain
    [0x72, 0x61, 0x6d, 0x70],  // 0xb5 ramp
    [0x72, 0x69, 0x73, 0x6b],  // 0xb6 risk
    [0x72, 0x6f, 0x61, 0x64],  // 0xb7 road
    [0x72, 0x6f, 0x61, 0x72],  // 0xb8 roar
    [0x72, 0x6f, 0x6c, 0x6c],  // 0xb9 roll
    [0x72, 0x6f, 0x6f, 0x66],  // 0xba roof
    [0x72, 0x6f, 0x6f, 0x6d],  // 0xbb room
    [0x72, 0x75, 0x62, 0x79],  // 0xbc ruby
    [0x72, 0x75, 0x73, 0x68],  // 0xbd rush
    [0x72, 0x75, 0x73, 0x74],  // 0xbe rust
    [0x73, 0x61, 0x63, 0x6b],  // 0xbf sack
    [0x73, 0x61, 0x66, 0x65],  // 0xc0 safe
    [0x73, 0x61, 0x67, 0x61],  // 0xc1 saga
    [0x73, 0x61, 0x6e, 0x64],  // 0xc2 sand
    [0x73, 0x63, 0x61, 0x6e],  // 0xc3 scan
    [0x73, 0x65, 0x6c, 0x66],  // 0xc4 self
    [0x73, 0x6c, 0x61, 0x6d],  // 0xc5 slam
    [0x73, 0x6c, 0x6f, 0x77],  // 0xc6 slow
    [0x73, 0x6f, 0x66, 0x74],  // 0xc7 soft
    [0x73, 0x6f, 0x75, 0x6c],  // 0xc8 soul
    [0x73, 0x6f, 0x75, 0x70],  // 0xc9 soup
    [0x73, 0x6f, 0x75, 0x72],  // 0xca sour
    [0x73, 0x74, 0x61, 0x79],  // 0xcb stay
    [0x73, 0x74, 0x75, 0x62],  // 0xcc stub
    [0x73, 0x75, 0x63, 0x68],  // 0xcd such
    [0x73, 0x75, 0x6d, 0x6f],  // 0xce sumo
    [0x73, 0x75, 0x6e, 0x67],  // 0xcf sung
    [0x73, 0x79, 0x6e, 0x63],  // 0xd0 sync
    [0x74, 0x61, 0x6c, 0x6b],  // 0xd1 talk
    [0x74, 0x65, 0x63, 0x68],  // 0xd2 tech
    [0x74, 0x65, 0x65, 0x6e],  // 0xd3 teen
    [0x74, 0x65, 0x73, 0x74],  // 0xd4 test
    [0x74, 0x68, 0x61, 0x77],  // 0xd5 thaw
    [0x74, 0x68, 0x69, 0x73],  // 0xd6 this
    [0x74, 0x6f, 0x61, 0x64],  // 0xd7 toad
    [0x74, 0x6f, 0x66, 0x75],  // 0xd8 tofu
    [0x74, 0x6f, 0x6c, 0x6c],  // 0xd9 toll
    [0x74, 0x6f, 0x6e, 0x65],  // 0xda tone
    [0x74, 0x72, 0x69, 0x6d],  // 0xdb trim
    [0x74, 0x72, 0x69, 0x70],  // 0xdc trip
    [0x74, 0x75, 0x6e, 0x61],  // 0xdd tuna
    [0x74, 0x75, 0x72, 0x66],  // 0xde turf
    [0x74, 0x77, 0x69, 0x67],  // 0xdf twig
    [0x75, 0x67, 0x6c, 0x79],  // 0xe0 ugly
    [0x75, 0x6e, 0x69, 0x74],  // 0xe1 unit
    [0x75, 0x72, 0x67, 0x65],  // 0xe2 urge
    [0x75, 0x73, 0x65, 0x64],  // 0xe3 used
    [0x75, 0x73, 0x65, 0x72],  // 0xe4 user
    [0x76, 0x61, 0x69, 0x6e],  // 0xe5 vain
    [0x76, 0x61, 0x73, 0x65],  // 0xe6 vase
    [0x76, 0x61, 0x73, 0x74],  // 0xe7 vast
    [0x76, 0x65, 0x61, 0x6c],  // 0xe8 veal
    [0x76, 0x69, 0x73, 0x61],  // 0xe9 visa
    [0x76, 0x6f, 0x69, 0x64],  // 0xea void
    [0x76, 0x6f, 0x77, 0x73],  // 0xeb vows
    [0x77, 0x61, 0x67, 0x65],  // 0xec wage
    [0x77, 0x61, 0x72, 0x64],  // 0xed ward
    [0x77, 0x61, 0x72, 0x6d],  // 0xee warm
    [0x77, 0x61, 0x72, 0x6e],  // 0xef warn
    [0x77, 0x61, 0x73, 0x68],  // 0xf0 wash
    [0x77, 0x61, 0x76, 0x79],  // 0xf1 wavy
    [0x77, 0x65, 0x61, 0x6b],  // 0xf2 weak
    [0x77, 0x65, 0x61, 0x72],  // 0xf3 wear
    [0x77, 0x68, 0x61, 0x74],  // 0xf4 what
    [0x77, 0x69, 0x6e, 0x67],  // 0xf5 wing
    [0x77, 0x6f, 0x6c, 0x66],  // 0xf6 wolf
    [0x77, 0x6f, 0x6f, 0x6c],  // 0xf7 wool
    [0x77, 0x72, 0x61, 0x70],  // 0xf8 wrap
    [0x79, 0x61, 0x72, 0x64],  // 0xf9 yard
    [0x79, 0x61, 0x77, 0x6e],  // 0xfa yawn
    [0x79, 0x65, 0x61, 0x72],  // 0xfb year
    [0x79, 0x65, 0x6c, 0x6c],  // 0xfc yell
    [0x79, 0x75, 0x72, 0x74],  // 0xfd yurt
    [0x7a, 0x65, 0x73, 0x74],  // 0xfe zest
    [0x7a, 0x6f, 0x6e, 0x65],  // 0xff zone
];

/// For the hash of the first and last letter of every word, the byte that
/// the word stands for. Entries that no word hashes to hold zero.
pub const HASH_TABLE: [u8; 1024] = [
    0x00, 0x00, 0x00, 0x00, 0x00, 0x00, 0x00, 0x00, 0x00, 0x00, 0x00, 0x00, 0x00, 0x00, 0x00, 0x00,
    0x00, 0x00, 0x00, 0x00, 0x00, 0x00, 0x00, 0x00, 0x00, 0x00, 0x00, 0x00, 0x00, 0x00, 0x00, 0x00,
    0x00, 0x00, 0x00, 0x00, 0x00, 0x00, 0x00, 0x00, 0x02, 0x00, 0x00, 0x00, 0x00, 0x03, 0x01, 0x00,
    0x04, 0x00, 0x00, 0x07, 0x05, 0x00, 0x00, 0x00, 0x00, 0x06, 0x00, 0x00, 0x00, 0x00, 0x00, 0x00,
    0x00, 0x00, 0x12, 0x00, 0x11, 0x10, 0x0e, 0x00, 0x0b, 0x00, 0x00, 0x08, 0x09, 0x0c, 0x0a, 0x00,
    0x00, 0x00, 0x0d, 0x13, 0x0f, 0x00, 0x00, 0x00, 0x00, 0x00, 0x14, 0x00, 0x00, 0x00, 0x00, 0x00,
    0x00, 0x00, 0x1e, 0x00, 0x16, 0x20, 0x19, 0x00, 0x18, 0x00, 0x00, 0x21, 0x15, 0x1a, 0x1f, 0x00,
    0x1d, 0x00, 0x00, 0x00, 0x17, 0x00, 0x00, 0x1b, 0x00, 0x1c, 0x00, 0x00, 0x00, 0x00, 0x00, 0x00,
    0x00, 0x00, 0x00, 0x27, 0x00, 0x29, 0x00, 0x2e, 0x28, 0x00, 0x00, 0x22, 0x2a, 0x2b, 0x2d, 0x26,
    0x25, 0x00, 0x2c, 0x24, 0x23, 0x00, 0x00, 0x2f, 0x00, 0x30, 0x00, 0x00, 0x00, 0x00, 0x00, 0x00,
    0x00, 0x00, 0x00, 0x35, 0x00, 0x33, 0x00, 0x00, 0x31, 0x00, 0x00, 0x00, 0x00, 0x37, 0x36, 0x39,
    0x00, 0x00, 0x00, 0x34, 0x38, 0x00, 0x00, 0x00, 0x00, 0x32, 0x00, 0x00, 0x00, 0x00, 0x00, 0x00,
    0x00, 0x42, 0x00, 0x00, 0x3d, 0x3e, 0x00, 0x45, 0x40, 0x00, 0x00, 0x44, 0x46, 0x3f, 0x3b, 0x00,
    0x00, 0x00, 0x3c, 0x47, 0x3a, 0x00, 0x00, 0x41, 0x43, 0x00, 0x48, 0x00, 0x00, 0x00, 0x00, 0x00,
    0x00, 0x4a, 0x51, 0x00, 0x4e, 0x4c, 0x50, 0x00, 0x54, 0x00, 0x00, 0x00, 0x53, 0x52, 0x49, 0x00,
    0x4b, 0x00, 0x00, 0x00, 0x4d, 0x00, 0x00, 0x4f, 0x00, 0x00, 0x00, 0x00, 0x00, 0x00, 0x00, 0x00,
    0x00, 0x62, 0x5b, 0x00, 0x5d, 0x60, 0x57, 0x59, 0x5c, 0x00, 0x00, 0x63, 0x55, 0x5a, 0x5f, 0x58,
    0x5e, 0x00, 0x56, 0x00, 0x61, 0x00, 0x00, 0x00, 0x00, 0x00, 0x00, 0x00, 0x00, 0x00, 0x00, 0x00,
    0x00, 0x65, 0x00, 0x00, 0x00, 0x69, 0x00, 0x00, 0x00, 0x00, 0x00, 0x00, 0x66, 0x6a, 0x64, 0x67,
    0x00, 0x00, 0x00, 0x68, 0x00, 0x00, 0x00, 0x00, 0x00, 0x00, 0x00, 0x00, 0x00, 0x00, 0x00, 0x00,
    0x00, 0x00, 0x00, 0x00, 0x00, 0x6b, 0x00, 0x00, 0x00, 0x00, 0x00, 0x6f, 0x00, 0x00, 0x00, 0x00,
    0x6d, 0x00, 0x00, 0x6e, 0x71, 0x00, 0x00, 0x00, 0x00, 0x70, 0x6c, 0x00, 0x00, 0x00, 0x00, 0x00,
    0x00, 0x00, 0x79, 0x00, 0x77, 0x72, 0x00, 0x78, 0x00, 0x00, 0x00, 0x00, 0x00, 0x00, 0x75, 0x76,
    0x73, 0x00, 0x00, 0x74, 0x7a, 0x00, 0x00, 0x7b, 0x00, 0x00, 0x00, 0x00, 0x00, 0x00, 0x00, 0x00,
    0x00, 0x00, 0x7f, 0x00, 0x7e, 0x85, 0x81, 0x87, 0x00, 0x00, 0x00, 0x7c, 0x00, 0x00, 0x80, 0x83,
    0x86, 0x00, 0x00, 0x84, 0x82, 0x00, 0x00, 0x00, 0x00, 0x7d, 0x00, 0x00, 0x00, 0x00, 0x00, 0x00,
    0x00, 0x90, 0x00, 0x00, 0x00, 0x88, 0x00, 0x00, 0x8f, 0x00, 0x00, 0x8b, 0x89, 0x00, 0x8d, 0x00,
    0x00, 0x00, 0x00, 0x8c, 0x8e, 0x00, 0x00, 0x00, 0x00, 0x8a, 0x00, 0x00, 0x00, 0x00, 0x00, 0x00,
    0x00, 0x00, 0x00, 0x00, 0x00, 0x95, 0x00, 0x00, 0x00, 0x00, 0x00, 0x93, 0x00, 0x96, 0x97, 0x00,
    0x00, 0x00, 0x92, 0x94, 0x00, 0x00, 0x00, 0x00, 0x00, 0x91, 0x00, 0x00, 0x00, 0x00, 0x00, 0x00,
    0x00, 0x9e, 0x00, 0x00, 0x00, 0x9b, 0x00, 0x00, 0x00, 0x00, 0x00, 0x00, 0x9f, 0x00, 0xa0, 0x9d,
    0x00, 0x00, 0x9a, 0x98, 0x9c, 0x00, 0x00, 0x00, 0x00, 0x99, 0x00, 0x00, 0x00, 0x00, 0x00, 0x00,
    0x00, 0x00, 0x00, 0x00, 0xaa, 0xa1, 0x00, 0xa7, 0xa3, 0x00, 0x00, 0xac, 0xa5, 0xa9, 0xa2, 0x00,
    0xae, 0x00, 0xa4, 0xa8, 0xad, 0x00, 0x00, 0xa6, 0x00, 0xab, 0x00, 0x00, 0x00, 0x00, 0x00, 0x00,
    0x00, 0x00, 0x00, 0x00, 0xaf, 0x00, 0x00, 0x00, 0x00, 0x00, 0x00, 0x00, 0x00, 0x00, 0x00, 0x00,
    0x00, 0x00, 0x00, 0x00, 0xb1, 0x00, 0x00, 0x00, 0x00, 0xb0, 0xb2, 0x00, 0x00, 0x00, 0x00, 0x00,
    0x00, 0x00, 0x00, 0x00, 0xb7, 0xb3, 0xba, 0x00, 0xbd, 0x00, 0x00, 0xb6, 0xb9, 0xbb, 0xb4, 0x00,
    0xb5, 0x00, 0xb8, 0x00, 0xbe, 0x00, 0x00, 0x00, 0x00, 0xbc, 0x00, 0x00, 0x00, 0x00, 0x00, 0x00,
    0x00, 0xc1, 0xcc, 0xd0, 0xc2, 0xc0, 0xc4, 0xcf, 0xcd, 0x00, 0x00, 0xbf, 0xc8, 0xc5, 0xc3, 0xce,
    0xc9, 0x00, 0xca, 0x00, 0xc7, 0x00, 0x00, 0xc6, 0x00, 0xcb, 0x00, 0x00, 0x00, 0x00, 0x00, 0x00,
    0x00, 0xdd, 0x00, 0x00, 0xd7, 0xda, 0xde, 0xdf, 0xd2, 0x00, 0x00, 0xd1, 0xd9, 0xdb, 0xd3, 0x00,
    0xdc, 0x00, 0x00, 0xd6, 0xd4, 0xd8, 0x00, 0xd5, 0x00, 0x00, 0x00, 0x00, 0x00, 0x00, 0x00, 0x00,
    0x00, 0x00, 0x00, 0x00, 0xe3, 0xe2, 0x00, 0x00, 0x00, 0x00, 0x00, 0x00, 0x00, 0x00, 0x00, 0x00,
    0x00, 0x00, 0xe4, 0x00, 0xe1, 0x00, 0x00, 0x00, 0x00, 0xe0, 0x00, 0x00, 0x00, 0x00, 0x00, 0x00,
    0x00, 0xe9, 0x00, 0x00, 0xea, 0xe6, 0x00, 0x00, 0x00, 0x00, 0x00, 0x00, 0xe8, 0x00, 0xe5, 0x00,
    0x00, 0x00, 0x00, 0xeb, 0xe7, 0x00, 0x00, 0x00, 0x00, 0x00, 0x00, 0x00, 0x00, 0x00, 0x00, 0x00,
    0x00, 0x00, 0x00, 0x00, 0xed, 0xec, 0xf6, 0xf5, 0xf0, 0x00, 0x00, 0xf2, 0xf7, 0xee, 0xef, 0x00,
    0xf8, 0x00, 0xf3, 0x00, 0xf4, 0x00, 0x00, 0x00, 0x00, 0xf1, 0x00, 0x00, 0x00, 0x00, 0x00, 0x00,
    0x00, 0x00, 0x00, 0x00, 0x00, 0x00, 0x00, 0x00, 0x00, 0x00, 0x00, 0x00, 0x00, 0x00, 0x00, 0x00,
    0x00, 0x00, 0x00, 0x00, 0x00, 0x00, 0x00, 0x00, 0x00, 0x00, 0x00, 0x00, 0x00, 0x00, 0x00, 0x00,
    0x00, 0x00, 0x00, 0x00, 0xf9, 0x00, 0x00, 0x00, 0x00, 0x00, 0x00, 0x00, 0xfc, 0x00, 0xfa, 0x00,
    0x00, 0x00, 0xfb, 0x00, 0xfd, 0x00, 0x00, 0x00, 0x00, 0x00, 0x00, 0x00, 0x00, 0x00, 0x00, 0x00,
    0x00, 0x00, 0x00, 0x00, 0x00, 0xff, 0x00, 0x00, 0x00, 0x00, 0x00, 0x00, 0x00, 0x00, 0x00, 0x00,
    0x00, 0x00, 0x00, 0x00, 0xfe, 0x00, 0x00, 0x00, 0x00, 0x00, 0x00, 0x00, 0x00, 0x00, 0x00, 0x00,
    0x00, 0x00, 0x00, 0x00, 0x00, 0x00, 0x00, 0x00, 0x00, 0x00, 0x00, 0x00, 0x00, 0x00, 0x00, 0x00,
    0x00, 0x00, 0x00, 0x00, 0x00, 0x00, 0x00, 0x00, 0x00, 0x00, 0x00, 0x00, 0x00, 0x00, 0x00, 0x00,
    0x00, 0x00, 0x00, 0x00, 0x00, 0x00, 0x00, 0x00, 0x00, 0x00, 0x00, 0x00, 0x00, 0x00, 0x00, 0x00,
    0x00, 0x00, 0x00, 0x00, 0x00, 0x00, 0x00, 0x00, 0x00, 0x00, 0x00, 0x00, 0x00, 0x00, 0x00, 0x00,
    0x00, 0x00, 0x00, 0x00, 0x00, 0x00, 0x00, 0x00, 0x00, 0x00, 0x00, 0x00, 0x00, 0x00, 0x00, 0x00,
    0x00, 0x00, 0x00, 0x00, 0x00, 0x00, 0x00, 0x00, 0x00, 0x00, 0x00, 0x00, 0x00, 0x00, 0x00, 0x00,
    0x00, 0x00, 0x00, 0x00, 0x00, 0x00, 0x00, 0x00, 0x00, 0x00, 0x00, 0x00, 0x00, 0x00, 0x00, 0x00,
    0x00, 0x00, 0x00, 0x00, 0x00, 0x00, 0x00, 0x00, 0x00, 0x00, 0x00, 0x00, 0x00, 0x00, 0x00, 0x00,
    0x00, 0x00, 0x00, 0x00, 0x00, 0x00, 0x00, 0x00, 0x00, 0x00, 0x00, 0x00, 0x00, 0x00, 0x00, 0x00,
    0x00, 0x00, 0x00, 0x00, 0x00, 0x00, 0x00, 0x00, 0x00, 0x00, 0x00, 0x00, 0x00, 0x00, 0x00, 0x00,
];

/// The word that stands for `byte`.
///
/// Opaque, so that only the proofs that read the table carry its 256
/// entries; the others use the lemmas below.
#[verifier::opaque]
pub open spec fn word_of(byte: u8) -> Seq<u8> {
    BYTE_WORDLIST[byte as int]@
}

/// The entry of [`HASH_TABLE`] at `index`. Opaque for the same reason.
#[verifier::opaque]
pub open spec fn hash_entry(index: int) -> u8 {
    HASH_TABLE[index]
}

/// True for the ASCII letters `a` to `z`.
pub open spec fn is_lowercase_letter(byte: u8) -> bool {
    0x61 <= byte <= 0x7a
}

/// The index into [`HASH_TABLE`] for a word with the given first and last
/// character: the low five bits of each, those of the first in front.
pub open spec fn hash_index(first: u8, last: u8) -> int {
    (first % 32) * 32 + last % 32
}

/// The four characters of every entry of [`BYTE_WORDLIST`] are lowercase
/// letters.
#[verifier::rlimit(100)]
#[verifier::spinoff_prover]
proof fn lemma_table_words_are_lowercase(byte: u8)
    ensures
        is_lowercase_letter(BYTE_WORDLIST[byte as int][0]),
        is_lowercase_letter(BYTE_WORDLIST[byte as int][1]),
        is_lowercase_letter(BYTE_WORDLIST[byte as int][2]),
        is_lowercase_letter(BYTE_WORDLIST[byte as int][3]),
{
}

/// [`HASH_TABLE`] holds, at the hash of the outer characters of every entry
/// of [`BYTE_WORDLIST`], the index of that entry.
#[verifier::rlimit(100)]
#[verifier::spinoff_prover]
proof fn lemma_table_hash_inverts(byte: u8)
    ensures
        HASH_TABLE[hash_index(BYTE_WORDLIST[byte as int][0], BYTE_WORDLIST[byte as int][3])]
            == byte,
{
}

/// Every word has four characters, each a lowercase letter.
pub proof fn lemma_words_are_lowercase()
    ensures
        forall|byte: u8| #[trigger] word_of(byte).len() == 4,
        forall|byte: u8, position: int|
            0 <= position < 4 ==> is_lowercase_letter(#[trigger] word_of(byte)[position]),
{
    reveal(word_of);
    assert forall|byte: u8, position: int| 0 <= position < 4 implies is_lowercase_letter(
        #[trigger] word_of(byte)[position],
    ) by {
        lemma_table_words_are_lowercase(byte);
    }
}

/// The hash of a word's first and last letter leads to the byte that the
/// word stands for.
pub proof fn lemma_hash_finds_byte(byte: u8)
    ensures
        hash_entry(hash_index(word_of(byte)[0], word_of(byte)[3])) == byte,
{
    reveal(word_of);
    reveal(hash_entry);
    lemma_table_hash_inverts(byte);
}

/// The byte whose word is `word`, if there is one.
pub open spec fn word_index(word: Seq<u8>) -> Option<u8> {
    if exists|byte: u8| word_of(byte) == word {
        Some(choose|byte: u8| word_of(byte) == word)
    } else {
        None
    }
}

/// No two words share both their first and their last letter.
pub proof fn lemma_outer_letters_unique(byte1: u8, byte2: u8)
    requires
        word_of(byte1)[0] == word_of(byte2)[0],
        word_of(byte1)[3] == word_of(byte2)[3],
    ensures
        byte1 == byte2,
{
    lemma_hash_finds_byte(byte1);
    lemma_hash_finds_byte(byte2);
}

/// Different bytes have different words.
pub proof fn lemma_words_distinct(byte1: u8, byte2: u8)
    requires
        word_of(byte1) == word_of(byte2),
    ensures
        byte1 == byte2,
{
    lemma_outer_letters_unique(byte1, byte2);
}

/// Looking up the word of a byte gives that byte.
pub proof fn lemma_word_index(byte: u8)
    ensures
        word_index(word_of(byte)) == Some(byte),
{
    let found = choose|found: u8| word_of(found) == word_of(byte);
    lemma_words_distinct(found, byte);
}

/// Hashes the first and last character of a word into an index of
/// [`HASH_TABLE`]. Total: any two bytes give an index inside the table.
pub fn word_hash(first: u8, last: u8) -> (index: usize)
    ensures
        index == hash_index(first, last),
        index < 1024,
{
    (first % 32) as usize * 32 + (last % 32) as usize
}

/// The word that stands for `byte`.
pub fn byte_to_word(byte: u8) -> (word: [u8; 4])
    ensures
        word@ == word_of(byte),
{
    reveal(word_of);
    BYTE_WORDLIST[byte as usize]
}

/// The byte that [`HASH_TABLE`] holds for a word with the given first and
/// last character.
fn hashed_byte(first: u8, last: u8) -> (byte: u8)
    ensures
        byte == hash_entry(hash_index(first, last)),
{
    reveal(hash_entry);
    HASH_TABLE[word_hash(first, last)]
}

/// Finds the byte that `word` stands for: looks up the candidate that the
/// outer characters hash to, and accepts it only if its word is `word`,
/// character for character.
pub fn word_to_byte(word: &[u8; 4]) -> (found: Option<u8>)
    ensures
        found == word_index(word@),
{
    let candidate = hashed_byte(word[0], word[3]);
    let entry = byte_to_word(candidate);
    if entry[0] == word[0] && entry[1] == word[1] && entry[2] == word[2] && entry[3] == word[3] {
        proof {
            lemma_words_are_lowercase();
            assert(word_of(candidate) =~= word@);
            lemma_word_index(candidate);
        }
        Some(candidate)
    } else {
        assert forall|byte: u8| word_of(byte) != word@ by {
            if word_of(byte) == word@ {
                lemma_hash_finds_byte(byte);
                lemma_words_distinct(byte, candidate);
            }
        }
        None
    }
}

} // verus!
