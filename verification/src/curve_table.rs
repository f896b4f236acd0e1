//! The precomputed table behind the custom response curve: one hand-tuned
//! shaped output for every possible 8-bit raw sample. The table keeps its
//! endpoints fixed (entry 0 is 0, entry 255 is 255) and is monotonically
//! non-decreasing. It is split into four segments so that each definition
//! stays small.

use vstd::prelude::*;

verus! {


/// The shaped output recorded in the table for raw sample `i`.
pub open spec fn custom_table_at(i: int) -> int
    recommends
        0 <= i < 256,
{
    if i < 64 {
        custom_table_seg0(i)
    } else if i < 128 {
        custom_table_seg1(i)
    } else if i < 192 {
        custom_table_seg2(i)
    } else {
        custom_table_seg3(i)
    }
}

#[verifier::opaque]
pub open spec fn custom_table_seg0(i: int) -> int {
    if i == 0 {
        0
    } else if i == 1 {
        1
    } else if i == 2 {
        2
    } else if i == 3 {
        3
    } else if i == 4 {
        4
    } else if i == 5 {
        5
    } else if i == 6 {
        7
    } else if i == 7 {
        8
    } else if i == 8 {
        9
    } else if i == 9 {
        10
    } else if i == 10 {
        11
    } else if i == 11 {
        12
    } else if i == 12 {
        13
    } else if i == 13 {
        14
    } else if i == 14 {
        15
    } else if i == 15 {
        16
    } else if i == 16 {
        17
    } else if i == 17 {
        18
    } else if i == 18 {
        19
    } else if i == 19 {
        20
    } else if i == 20 {
        22
    } else if i == 21 {
        24
    } else if i == 22 {
        26
    } else if i == 23 {
        28
    } else if i == 24 {
        30
    } else if i == 25 {
        32
    } else if i == 26 {
        34
    } else if i == 27 {
        36
    } else if i == 28 {
        38
    } else if i == 29 {
        40
    } else if i == 30 {
        42
    } else if i == 31 {
        44
    } else if i == 32 {
        46
    } else if i == 33 {
        48
    } else if i == 34 {
        50
    } else if i == 35 {
        52
    } else if i == 36 {
        54
    } else if i == 37 {
        56
    } else if i == 38 {
        58
    } else if i == 39 {
        60
    } else if i == 40 {
        62
    } else if i == 41 {
        64
    } else if i == 42 {
        66
    } else if i == 43 {
        68
    } else if i == 44 {
        70
    } else if i == 45 {
        72
    } else if i == 46 {
        74
    } else if i == 47 {
        76
    } else if i == 48 {
        78
    } else if i == 49 {
        79
    } else if i == 50 {
        80
    } else if i == 51 {
        81
    } else if i == 52 {
        82
    } else if i == 53 {
        84
    } else if i == 54 {
        85
    } else if i == 55 {
        86
    } else if i == 56 {
        87
    } else if i == 57 {
        88
    } else if i == 58 {
        89
    } else if i == 59 {
        90
    } else if i == 60 {
        91
    } else if i == 61 {
        92
    } else if i == 62 {
        93
    } else {
        94
    }
}

#[verifier::opaque]
pub open spec fn custom_table_seg1(i: int) -> int {
    if i == 64 {
        96
    } else if i == 65 {
        96
    } else if i == 66 {
        97
    } else if i == 67 {
        98
    } else if i == 68 {
        99
    } else if i == 69 {
        100
    } else if i == 70 {
        101
    } else if i == 71 {
        102
    } else if i == 72 {
        103
    } else if i == 73 {
        104
    } else if i == 74 {
        105
    } else if i == 75 {
        106
    } else if i == 76 {
        106
    } else if i == 77 {
        107
    } else if i == 78 {
        108
    } else if i == 79 {
        109
    } else if i == 80 {
        110
    } else if i == 81 {
        110
    } else if i == 82 {
        111
    } else if i == 83 {
        112
    } else if i == 84 {
        112
    } else if i == 85 {
        113
    } else if i == 86 {
        114
    } else if i == 87 {
        114
    } else if i == 88 {
        115
    } else if i == 89 {
        116
    } else if i == 90 {
        116
    } else if i == 91 {
        117
    } else if i == 92 {
        117
    } else if i == 93 {
        118
    } else if i == 94 {
        118
    } else if i == 95 {
        119
    } else if i == 96 {
        120
    } else if i == 97 {
        120
    } else if i == 98 {
        120
    } else if i == 99 {
        121
    } else if i == 100 {
        121
    } else if i == 101 {
        122
    } else if i == 102 {
        122
    } else if i == 103 {
        123
    } else if i == 104 {
        123
    } else if i == 105 {
        123
    } else if i == 106 {
        124
    } else if i == 107 {
        124
    } else if i == 108 {
        124
    } else if i == 109 {
        125
    } else if i == 110 {
        125
    } else if i == 111 {
        125
    } else if i == 112 {
        126
    } else if i == 113 {
        126
    } else if i == 114 {
        126
    } else if i == 115 {
        126
    } else if i == 116 {
        126
    } else if i == 117 {
        127
    } else if i == 118 {
        127
    } else if i == 119 {
        127
    } else if i == 120 {
        127
    } else if i == 121 {
        127
    } else if i == 122 {
        127
    } else if i == 123 {
        127
    } else if i == 124 {
        127
    } else if i == 125 {
        127
    } else if i == 126 {
        127
    } else {
        127
    }
}

#[verifier::opaque]
pub open spec fn custom_table_seg2(i: int) -> int {
    if i == 128 {
        128
    } else if i == 129 {
        128
    } else if i == 130 {
        128
    } else if i == 131 {
        128
    } else if i == 132 {
        128
    } else if i == 133 {
        128
    } else if i == 134 {
        128
    } else if i == 135 {
        128
    } else if i == 136 {
        128
    } else if i == 137 {
        128
    } else if i == 138 {
        128
    } else if i == 139 {
        128
    } else if i == 140 {
        129
    } else if i == 141 {
        129
    } else if i == 142 {
        129
    } else if i == 143 {
        129
    } else if i == 144 {
        130
    } else if i == 145 {
        130
    } else if i == 146 {
        130
    } else if i == 147 {
        130
    } else if i == 148 {
        131
    } else if i == 149 {
        131
    } else if i == 150 {
        131
    } else if i == 151 {
        132
    } else if i == 152 {
        132
    } else if i == 153 {
        132
    } else if i == 154 {
        133
    } else if i == 155 {
        133
    } else if i == 156 {
        134
    } else if i == 157 {
        134
    } else if i == 158 {
        135
    } else if i == 159 {
        135
    } else if i == 160 {
        136
    } else if i == 161 {
        136
    } else if i == 162 {
        137
    } else if i == 163 {
        137
    } else if i == 164 {
        138
    } else if i == 165 {
        138
    } else if i == 166 {
        139
    } else if i == 167 {
        139
    } else if i == 168 {
        140
    } else if i == 169 {
        141
    } else if i == 170 {
        141
    } else if i == 171 {
        142
    } else if i == 172 {
        143
    } else if i == 173 {
        143
    } else if i == 174 {
        144
    } else if i == 175 {
        145
    } else if i == 176 {
        146
    } else if i == 177 {
        146
    } else if i == 178 {
        147
    } else if i == 179 {
        148
    } else if i == 180 {
        149
    } else if i == 181 {
        149
    } else if i == 182 {
        150
    } else if i == 183 {
        151
    } else if i == 184 {
        152
    } else if i == 185 {
        153
    } else if i == 186 {
        154
    } else if i == 187 {
        155
    } else if i == 188 {
        156
    } else if i == 189 {
        157
    } else if i == 190 {
        158
    } else {
        159
    }
}

#[verifier::opaque]
pub open spec fn custom_table_seg3(i: int) -> int {
    if i == 192 {
        160
    } else if i == 193 {
        161
    } else if i == 194 {
        162
    } else if i == 195 {
        163
    } else if i == 196 {
        164
    } else if i == 197 {
        165
    } else if i == 198 {
        166
    } else if i == 199 {
        167
    } else if i == 200 {
        168
    } else if i == 201 {
        169
    } else if i == 202 {
        170
    } else if i == 203 {
        172
    } else if i == 204 {
        174
    } else if i == 205 {
        176
    } else if i == 206 {
        178
    } else if i == 207 {
        180
    } else if i == 208 {
        182
    } else if i == 209 {
        184
    } else if i == 210 {
        186
    } else if i == 211 {
        188
    } else if i == 212 {
        190
    } else if i == 213 {
        192
    } else if i == 214 {
        194
    } else if i == 215 {
        196
    } else if i == 216 {
        198
    } else if i == 217 {
        200
    } else if i == 218 {
        202
    } else if i == 219 {
        204
    } else if i == 220 {
        206
    } else if i == 221 {
        208
    } else if i == 222 {
        210
    } else if i == 223 {
        212
    } else if i == 224 {
        214
    } else if i == 225 {
        216
    } else if i == 226 {
        218
    } else if i == 227 {
        220
    } else if i == 228 {
        222
    } else if i == 229 {
        224
    } else if i == 230 {
        226
    } else if i == 231 {
        228
    } else if i == 232 {
        230
    } else if i == 233 {
        232
    } else if i == 234 {
        234
    } else if i == 235 {
        235
    } else if i == 236 {
        236
    } else if i == 237 {
        237
    } else if i == 238 {
        238
    } else if i == 239 {
        239
    } else if i == 240 {
        240
    } else if i == 241 {
        241
    } else if i == 242 {
        242
    } else if i == 243 {
        243
    } else if i == 244 {
        244
    } else if i == 245 {
        245
    } else if i == 246 {
        246
    } else if i == 247 {
        247
    } else if i == 248 {
        248
    } else if i == 249 {
        249
    } else if i == 250 {
        250
    } else if i == 251 {
        251
    } else if i == 252 {
        252
    } else if i == 253 {
        253
    } else if i == 254 {
        254
    } else {
        255
    }
}

pub(crate) fn custom_seg0(x: u8) -> (r: u8)
    requires
        x < 64,
    ensures
        r as int == custom_table_seg0(x as int),
{
    proof {
        reveal(custom_table_seg0);
    }
    if x == 0 {
        0
    } else if x == 1 {
        1
    } else if x == 2 {
        2
    } else if x == 3 {
        3
    } else if x == 4 {
        4
    } else if x == 5 {
        5
    } else if x == 6 {
        7
    } else if x == 7 {
        8
    } else if x == 8 {
        9
    } else if x == 9 {
        10
    } else if x == 10 {
        11
    } else if x == 11 {
        12
    } else if x == 12 {
        13
    } else if x == 13 {
        14
    } else if x == 14 {
        15
    } else if x == 15 {
        16
    } else if x == 16 {
        17
    } else if x == 17 {
        18
    } else if x == 18 {
        19
    } else if x == 19 {
        20
    } else if x == 20 {
        22
    } else if x == 21 {
        24
    } else if x == 22 {
        26
    } else if x == 23 {
        28
    } else if x == 24 {
        30
    } else if x == 25 {
        32
    } else if x == 26 {
        34
    } else if x == 27 {
        36
    } else if x == 28 {
        38
    } else if x == 29 {
        40
    } else if x == 30 {
        42
    } else if x == 31 {
        44
    } else if x == 32 {
        46
    } else if x == 33 {
        48
    } else if x == 34 {
        50
    } else if x == 35 {
        52
    } else if x == 36 {
        54
    } else if x == 37 {
        56
    } else if x == 38 {
        58
    } else if x == 39 {
        60
    } else if x == 40 {
        62
    } else if x == 41 {
        64
    } else if x == 42 {
        66
    } else if x == 43 {
        68
    } else if x == 44 {
        70
    } else if x == 45 {
        72
    } else if x == 46 {
        74
    } else if x == 47 {
        76
    } else if x == 48 {
        78
    } else if x == 49 {
        79
    } else if x == 50 {
        80
    } else if x == 51 {
        81
    } else if x == 52 {
        82
    } else if x == 53 {
        84
    } else if x == 54 {
        85
    } else if x == 55 {
        86
    } else if x == 56 {
        87
    } else if x == 57 {
        88
    } else if x == 58 {
        89
    } else if x == 59 {
        90
    } else if x == 60 {
        91
    } else if x == 61 {
        92
    } else if x == 62 {
        93
    } else {
        94
    }
}

pub(crate) fn custom_seg1(x: u8) -> (r: u8)
    requires
        64 <= x < 128,
    ensures
        r as int == custom_table_seg1(x as int),
{
    proof {
        reveal(custom_table_seg1);
    }
    if x == 64 {
        96
    } else if x == 65 {
        96
    } else if x == 66 {
        97
    } else if x == 67 {
        98
    } else if x == 68 {
        99
    } else if x == 69 {
        100
    } else if x == 70 {
        101
    } else if x == 71 {
        102
    } else if x == 72 {
        103
    } else if x == 73 {
        104
    } else if x == 74 {
        105
    } else if x == 75 {
        106
    } else if x == 76 {
        106
    } else if x == 77 {
        107
    } else if x == 78 {
        108
    } else if x == 79 {
        109
    } else if x == 80 {
        110
    } else if x == 81 {
        110
    } else if x == 82 {
        111
    } else if x == 83 {
        112
    } else if x == 84 {
        112
    } else if x == 85 {
        113
    } else if x == 86 {
        114
    } else if x == 87 {
        114
    } else if x == 88 {
        115
    } else if x == 89 {
        116
    } else if x == 90 {
        116
    } else if x == 91 {
        117
    } else if x == 92 {
        117
    } else if x == 93 {
        118
    } else if x == 94 {
        118
    } else if x == 95 {
        119
    } else if x == 96 {
        120
    } else if x == 97 {
        120
    } else if x == 98 {
        120
    } else if x == 99 {
        121
    } else if x == 100 {
        121
    } else if x == 101 {
        122
    } else if x == 102 {
        122
    } else if x == 103 {
        123
    } else if x == 104 {
        123
    } else if x == 105 {
        123
    } else if x == 106 {
        124
    } else if x == 107 {
        124
    } else if x == 108 {
        124
    } else if x == 109 {
        125
    } else if x == 110 {
        125
    } else if x == 111 {
        125
    } else if x == 112 {
        126
    } else if x == 113 {
        126
    } else if x == 114 {
        126
    } else if x == 115 {
        126
    } else if x == 116 {
        126
    } else if x == 117 {
        127
    } else if x == 118 {
        127
    } else if x == 119 {
        127
    } else if x == 120 {
        127
    } else if x == 121 {
        127
    } else if x == 122 {
        127
    } else if x == 123 {
        127
    } else if x == 124 {
        127
    } else if x == 125 {
        127
    } else if x == 126 {
        127
    } else {
        127
    }
}

pub(crate) fn custom_seg2(x: u8) -> (r: u8)
    requires
        128 <= x < 192,
    ensures
        r as int == custom_table_seg2(x as int),
{
    proof {
        reveal(custom_table_seg2);
    }
    if x == 128 {
        128
    } else if x == 129 {
        128
    } else if x == 130 {
        128
    } else if x == 131 {
        128
    } else if x == 132 {
        128
    } else if x == 133 {
        128
    } else if x == 134 {
        128
    } else if x == 135 {
        128
    } else if x == 136 {
        128
    } else if x == 137 {
        128
    } else if x == 138 {
        128
    } else if x == 139 {
        128
    } else if x == 140 {
        129
    } else if x == 141 {
        129
    } else if x == 142 {
        129
    } else if x == 143 {
        129
    } else if x == 144 {
        130
    } else if x == 145 {
        130
    } else if x == 146 {
        130
    } else if x == 147 {
        130
    } else if x == 148 {
        131
    } else if x == 149 {
        131
    } else if x == 150 {
        131
    } else if x == 151 {
        132
    } else if x == 152 {
        132
    } else if x == 153 {
        132
    } else if x == 154 {
        133
    } else if x == 155 {
        133
    } else if x == 156 {
        134
    } else if x == 157 {
        134
    } else if x == 158 {
        135
    } else if x == 159 {
        135
    } else if x == 160 {
        136
    } else if x == 161 {
        136
    } else if x == 162 {
        137
    } else if x == 163 {
        137
    } else if x == 164 {
        138
    } else if x == 165 {
        138
    } else if x == 166 {
        139
    } else if x == 167 {
        139
    } else if x == 168 {
        140
    } else if x == 169 {
        141
    } else if x == 170 {
        141
    } else if x == 171 {
        142
    } else if x == 172 {
        143
    } else if x == 173 {
        143
    } else if x == 174 {
        144
    } else if x == 175 {
        145
    } else if x == 176 {
        146
    } else if x == 177 {
        146
    } else if x == 178 {
        147
    } else if x == 179 {
        148
    } else if x == 180 {
        149
    } else if x == 181 {
        149
    } else if x == 182 {
        150
    } else if x == 183 {
        151
    } else if x == 184 {
        152
    } else if x == 185 {
        153
    } else if x == 186 {
        154
    } else if x == 187 {
        155
    } else if x == 188 {
        156
    } else if x == 189 {
        157
    } else if x == 190 {
        158
    } else {
        159
    }
}

pub(crate) fn custom_seg3(x: u8) -> (r: u8)
    requires
        192 <= x < 256,
    ensures
        r as int == custom_table_seg3(x as int),
{
    proof {
        reveal(custom_table_seg3);
    }
    if x == 192 {
        160
    } else if x == 193 {
        161
    } else if x == 194 {
        162
    } else if x == 195 {
        163
    } else if x == 196 {
        164
    } else if x == 197 {
        165
    } else if x == 198 {
        166
    } else if x == 199 {
        167
    } else if x == 200 {
        168
    } else if x == 201 {
        169
    } else if x == 202 {
        170
    } else if x == 203 {
        172
    } else if x == 204 {
        174
    } else if x == 205 {
        176
    } else if x == 206 {
        178
    } else if x == 207 {
        180
    } else if x == 208 {
        182
    } else if x == 209 {
        184
    } else if x == 210 {
        186
    } else if x == 211 {
        188
    } else if x == 212 {
        190
    } else if x == 213 {
        192
    } else if x == 214 {
        194
    } else if x == 215 {
        196
    } else if x == 216 {
        198
    } else if x == 217 {
        200
    } else if x == 218 {
        202
    } else if x == 219 {
        204
    } else if x == 220 {
        206
    } else if x == 221 {
        208
    } else if x == 222 {
        210
    } else if x == 223 {
        212
    } else if x == 224 {
        214
    } else if x == 225 {
        216
    } else if x == 226 {
        218
    } else if x == 227 {
        220
    } else if x == 228 {
        222
    } else if x == 229 {
        224
    } else if x == 230 {
        226
    } else if x == 231 {
        228
    } else if x == 232 {
        230
    } else if x == 233 {
        232
    } else if x == 234 {
        234
    } else if x == 235 {
        235
    } else if x == 236 {
        236
    } else if x == 237 {
        237
    } else if x == 238 {
        238
    } else if x == 239 {
        239
    } else if x == 240 {
        240
    } else if x == 241 {
        241
    } else if x == 242 {
        242
    } else if x == 243 {
        243
    } else if x == 244 {
        244
    } else if x == 245 {
        245
    } else if x == 246 {
        246
    } else if x == 247 {
        247
    } else if x == 248 {
        248
    } else if x == 249 {
        249
    } else if x == 250 {
        250
    } else if x == 251 {
        251
    } else if x == 252 {
        252
    } else if x == 253 {
        253
    } else if x == 254 {
        254
    } else {
        255
    }
}

} // verus!
