//! Dye lab: colour values of dye presets and the files a dye mod is made of.
use vstd::prelude::*;
use crate::text::{
    byte_len, byte_len_of, chars_of, hex_fields_sliceable, hex_field, hex_field_of, push_char, push_str, skip_leading,
    trim_start_char,
};

verus! {

/// One colour channel `v` (below 256) as an `fvec3` component: the value
/// `v / 255` in single precision written the way Rust's `{}` writes an
/// `f32`, the shortest decimal that reads back as that value ("0" for 0,
/// "0.5019608" for 128, "1" for 255).
pub open spec fn fvec_component(v: nat) -> Seq<char> {
    if v == 0 {
        "0"@
    } else if v == 1 {
        "0.003921569"@
    } else if v == 2 {
        "0.007843138"@
    } else if v == 3 {
        "0.011764706"@
    } else if v == 4 {
        "0.015686275"@
    } else if v == 5 {
        "0.019607844"@
    } else if v == 6 {
        "0.023529412"@
    } else if v == 7 {
        "0.02745098"@
    } else if v == 8 {
        "0.03137255"@
    } else if v == 9 {
        "0.03529412"@
    } else if v == 10 {
        "0.039215688"@
    } else if v == 11 {
        "0.043137256"@
    } else if v == 12 {
        "0.047058824"@
    } else if v == 13 {
        "0.050980393"@
    } else if v == 14 {
        "0.05490196"@
    } else if v == 15 {
        "0.05882353"@
    } else if v == 16 {
        "0.0627451"@
    } else if v == 17 {
        "0.06666667"@
    } else if v == 18 {
        "0.07058824"@
    } else if v == 19 {
        "0.07450981"@
    } else if v == 20 {
        "0.078431375"@
    } else if v == 21 {
        "0.08235294"@
    } else if v == 22 {
        "0.08627451"@
    } else if v == 23 {
        "0.09019608"@
    } else if v == 24 {
        "0.09411765"@
    } else if v == 25 {
        "0.09803922"@
    } else if v == 26 {
        "0.101960786"@
    } else if v == 27 {
        "0.105882354"@
    } else if v == 28 {
        "0.10980392"@
    } else if v == 29 {
        "0.11372549"@
    } else if v == 30 {
        "0.11764706"@
    } else if v == 31 {
        "0.12156863"@
    } else if v == 32 {
        "0.1254902"@
    } else if v == 33 {
        "0.12941177"@
    } else if v == 34 {
        "0.13333334"@
    } else if v == 35 {
        "0.13725491"@
    } else if v == 36 {
        "0.14117648"@
    } else if v == 37 {
        "0.14509805"@
    } else if v == 38 {
        "0.14901961"@
    } else if v == 39 {
        "0.15294118"@
    } else if v == 40 {
        "0.15686275"@
    } else if v == 41 {
        "0.16078432"@
    } else if v == 42 {
        "0.16470589"@
    } else if v == 43 {
        "0.16862746"@
    } else if v == 44 {
        "0.17254902"@
    } else if v == 45 {
        "0.1764706"@
    } else if v == 46 {
        "0.18039216"@
    } else if v == 47 {
        "0.18431373"@
    } else if v == 48 {
        "0.1882353"@
    } else if v == 49 {
        "0.19215687"@
    } else if v == 50 {
        "0.19607843"@
    } else if v == 51 {
        "0.2"@
    } else if v == 52 {
        "0.20392157"@
    } else if v == 53 {
        "0.20784314"@
    } else if v == 54 {
        "0.21176471"@
    } else if v == 55 {
        "0.21568628"@
    } else if v == 56 {
        "0.21960784"@
    } else if v == 57 {
        "0.22352941"@
    } else if v == 58 {
        "0.22745098"@
    } else if v == 59 {
        "0.23137255"@
    } else if v == 60 {
        "0.23529412"@
    } else if v == 61 {
        "0.23921569"@
    } else if v == 62 {
        "0.24313726"@
    } else if v == 63 {
        "0.24705882"@
    } else if v == 64 {
        "0.2509804"@
    } else if v == 65 {
        "0.25490198"@
    } else if v == 66 {
        "0.25882354"@
    } else if v == 67 {
        "0.2627451"@
    } else if v == 68 {
        "0.26666668"@
    } else if v == 69 {
        "0.27058825"@
    } else if v == 70 {
        "0.27450982"@
    } else if v == 71 {
        "0.2784314"@
    } else if v == 72 {
        "0.28235295"@
    } else if v == 73 {
        "0.28627452"@
    } else if v == 74 {
        "0.2901961"@
    } else if v == 75 {
        "0.29411766"@
    } else if v == 76 {
        "0.29803923"@
    } else if v == 77 {
        "0.3019608"@
    } else if v == 78 {
        "0.30588236"@
    } else if v == 79 {
        "0.30980393"@
    } else if v == 80 {
        "0.3137255"@
    } else if v == 81 {
        "0.31764707"@
    } else if v == 82 {
        "0.32156864"@
    } else if v == 83 {
        "0.3254902"@
    } else if v == 84 {
        "0.32941177"@
    } else if v == 85 {
        "0.33333334"@
    } else if v == 86 {
        "0.3372549"@
    } else if v == 87 {
        "0.34117648"@
    } else if v == 88 {
        "0.34509805"@
    } else if v == 89 {
        "0.34901962"@
    } else if v == 90 {
        "0.3529412"@
    } else if v == 91 {
        "0.35686275"@
    } else if v == 92 {
        "0.36078432"@
    } else if v == 93 {
        "0.3647059"@
    } else if v == 94 {
        "0.36862746"@
    } else if v == 95 {
        "0.37254903"@
    } else if v == 96 {
        "0.3764706"@
    } else if v == 97 {
        "0.38039216"@
    } else if v == 98 {
        "0.38431373"@
    } else if v == 99 {
        "0.3882353"@
    } else if v == 100 {
        "0.39215687"@
    } else if v == 101 {
        "0.39607844"@
    } else if v == 102 {
        "0.4"@
    } else if v == 103 {
        "0.40392157"@
    } else if v == 104 {
        "0.40784314"@
    } else if v == 105 {
        "0.4117647"@
    } else if v == 106 {
        "0.41568628"@
    } else if v == 107 {
        "0.41960785"@
    } else if v == 108 {
        "0.42352942"@
    } else if v == 109 {
        "0.42745098"@
    } else if v == 110 {
        "0.43137255"@
    } else if v == 111 {
        "0.43529412"@
    } else if v == 112 {
        "0.4392157"@
    } else if v == 113 {
        "0.44313726"@
    } else if v == 114 {
        "0.44705883"@
    } else if v == 115 {
        "0.4509804"@
    } else if v == 116 {
        "0.45490196"@
    } else if v == 117 {
        "0.45882353"@
    } else if v == 118 {
        "0.4627451"@
    } else if v == 119 {
        "0.46666667"@
    } else if v == 120 {
        "0.47058824"@
    } else if v == 121 {
        "0.4745098"@
    } else if v == 122 {
        "0.47843137"@
    } else if v == 123 {
        "0.48235294"@
    } else if v == 124 {
        "0.4862745"@
    } else if v == 125 {
        "0.49019608"@
    } else if v == 126 {
        "0.49411765"@
    } else if v == 127 {
        "0.49803922"@
    } else if v == 128 {
        "0.5019608"@
    } else if v == 129 {
        "0.5058824"@
    } else if v == 130 {
        "0.50980395"@
    } else if v == 131 {
        "0.5137255"@
    } else if v == 132 {
        "0.5176471"@
    } else if v == 133 {
        "0.52156866"@
    } else if v == 134 {
        "0.5254902"@
    } else if v == 135 {
        "0.5294118"@
    } else if v == 136 {
        "0.53333336"@
    } else if v == 137 {
        "0.5372549"@
    } else if v == 138 {
        "0.5411765"@
    } else if v == 139 {
        "0.54509807"@
    } else if v == 140 {
        "0.54901963"@
    } else if v == 141 {
        "0.5529412"@
    } else if v == 142 {
        "0.5568628"@
    } else if v == 143 {
        "0.56078434"@
    } else if v == 144 {
        "0.5647059"@
    } else if v == 145 {
        "0.5686275"@
    } else if v == 146 {
        "0.57254905"@
    } else if v == 147 {
        "0.5764706"@
    } else if v == 148 {
        "0.5803922"@
    } else if v == 149 {
        "0.58431375"@
    } else if v == 150 {
        "0.5882353"@
    } else if v == 151 {
        "0.5921569"@
    } else if v == 152 {
        "0.59607846"@
    } else if v == 153 {
        "0.6"@
    } else if v == 154 {
        "0.6039216"@
    } else if v == 155 {
        "0.60784316"@
    } else if v == 156 {
        "0.6117647"@
    } else if v == 157 {
        "0.6156863"@
    } else if v == 158 {
        "0.61960787"@
    } else if v == 159 {
        "0.62352943"@
    } else if v == 160 {
        "0.627451"@
    } else if v == 161 {
        "0.6313726"@
    } else if v == 162 {
        "0.63529414"@
    } else if v == 163 {
        "0.6392157"@
    } else if v == 164 {
        "0.6431373"@
    } else if v == 165 {
        "0.64705884"@
    } else if v == 166 {
        "0.6509804"@
    } else if v == 167 {
        "0.654902"@
    } else if v == 168 {
        "0.65882355"@
    } else if v == 169 {
        "0.6627451"@
    } else if v == 170 {
        "0.6666667"@
    } else if v == 171 {
        "0.67058825"@
    } else if v == 172 {
        "0.6745098"@
    } else if v == 173 {
        "0.6784314"@
    } else if v == 174 {
        "0.68235296"@
    } else if v == 175 {
        "0.6862745"@
    } else if v == 176 {
        "0.6901961"@
    } else if v == 177 {
        "0.69411767"@
    } else if v == 178 {
        "0.69803923"@
    } else if v == 179 {
        "0.7019608"@
    } else if v == 180 {
        "0.7058824"@
    } else if v == 181 {
        "0.70980394"@
    } else if v == 182 {
        "0.7137255"@
    } else if v == 183 {
        "0.7176471"@
    } else if v == 184 {
        "0.72156864"@
    } else if v == 185 {
        "0.7254902"@
    } else if v == 186 {
        "0.7294118"@
    } else if v == 187 {
        "0.73333335"@
    } else if v == 188 {
        "0.7372549"@
    } else if v == 189 {
        "0.7411765"@
    } else if v == 190 {
        "0.74509805"@
    } else if v == 191 {
        "0.7490196"@
    } else if v == 192 {
        "0.7529412"@
    } else if v == 193 {
        "0.75686276"@
    } else if v == 194 {
        "0.7607843"@
    } else if v == 195 {
        "0.7647059"@
    } else if v == 196 {
        "0.76862746"@
    } else if v == 197 {
        "0.77254903"@
    } else if v == 198 {
        "0.7764706"@
    } else if v == 199 {
        "0.78039217"@
    } else if v == 200 {
        "0.78431374"@
    } else if v == 201 {
        "0.7882353"@
    } else if v == 202 {
        "0.7921569"@
    } else if v == 203 {
        "0.79607844"@
    } else if v == 204 {
        "0.8"@
    } else if v == 205 {
        "0.8039216"@
    } else if v == 206 {
        "0.80784315"@
    } else if v == 207 {
        "0.8117647"@
    } else if v == 208 {
        "0.8156863"@
    } else if v == 209 {
        "0.81960785"@
    } else if v == 210 {
        "0.8235294"@
    } else if v == 211 {
        "0.827451"@
    } else if v == 212 {
        "0.83137256"@
    } else if v == 213 {
        "0.8352941"@
    } else if v == 214 {
        "0.8392157"@
    } else if v == 215 {
        "0.84313726"@
    } else if v == 216 {
        "0.84705883"@
    } else if v == 217 {
        "0.8509804"@
    } else if v == 218 {
        "0.85490197"@
    } else if v == 219 {
        "0.85882354"@
    } else if v == 220 {
        "0.8627451"@
    } else if v == 221 {
        "0.8666667"@
    } else if v == 222 {
        "0.87058824"@
    } else if v == 223 {
        "0.8745098"@
    } else if v == 224 {
        "0.8784314"@
    } else if v == 225 {
        "0.88235295"@
    } else if v == 226 {
        "0.8862745"@
    } else if v == 227 {
        "0.8901961"@
    } else if v == 228 {
        "0.89411765"@
    } else if v == 229 {
        "0.8980392"@
    } else if v == 230 {
        "0.9019608"@
    } else if v == 231 {
        "0.90588236"@
    } else if v == 232 {
        "0.9098039"@
    } else if v == 233 {
        "0.9137255"@
    } else if v == 234 {
        "0.91764706"@
    } else if v == 235 {
        "0.92156863"@
    } else if v == 236 {
        "0.9254902"@
    } else if v == 237 {
        "0.92941177"@
    } else if v == 238 {
        "0.93333334"@
    } else if v == 239 {
        "0.9372549"@
    } else if v == 240 {
        "0.9411765"@
    } else if v == 241 {
        "0.94509804"@
    } else if v == 242 {
        "0.9490196"@
    } else if v == 243 {
        "0.9529412"@
    } else if v == 244 {
        "0.95686275"@
    } else if v == 245 {
        "0.9607843"@
    } else if v == 246 {
        "0.9647059"@
    } else if v == 247 {
        "0.96862745"@
    } else if v == 248 {
        "0.972549"@
    } else if v == 249 {
        "0.9764706"@
    } else if v == 250 {
        "0.98039216"@
    } else if v == 251 {
        "0.9843137"@
    } else if v == 252 {
        "0.9882353"@
    } else if v == 253 {
        "0.99215686"@
    } else if v == 254 {
        "0.99607843"@
    } else {
        "1"@
    }
}

/// The `k`-th channel of a six-byte hex colour, 128 where it is not hex.
pub open spec fn channel_or_grey(t: Seq<char>, k: nat) -> nat {
    match hex_field(t, k) {
        Some(x) => x,
        None => 128,
    }
}

/// The `fvec3` text of a hex colour such as "FF0000" or "#FF0000":
/// "0.5 0.5 0.5" unless what follows the leading '#'s is six bytes long,
/// else the three channel components separated by spaces.
pub open spec fn fvec3_text(hex: Seq<char>) -> Seq<char> {
    let t = trim_start_char(hex, '#');
    if byte_len(t) != 6 {
        "0.5 0.5 0.5"@
    } else {
        fvec_component(channel_or_grey(t, 0)) + seq![' ']
            + fvec_component(channel_or_grey(t, 1)) + seq![' ']
            + fvec_component(channel_or_grey(t, 2))
    }
}

/// The text of one channel (see `fvec_component`).
fn fvec_component_text(v: u8) -> (s: &'static str)
    ensures
        s@ == fvec_component(v as nat),
{
    if v == 0 {
        "0"
    } else if v == 1 {
        "0.003921569"
    } else if v == 2 {
        "0.007843138"
    } else if v == 3 {
        "0.011764706"
    } else if v == 4 {
        "0.015686275"
    } else if v == 5 {
        "0.019607844"
    } else if v == 6 {
        "0.023529412"
    } else if v == 7 {
        "0.02745098"
    } else if v == 8 {
        "0.03137255"
    } else if v == 9 {
        "0.03529412"
    } else if v == 10 {
        "0.039215688"
    } else if v == 11 {
        "0.043137256"
    } else if v == 12 {
        "0.047058824"
    } else if v == 13 {
        "0.050980393"
    } else if v == 14 {
        "0.05490196"
    } else if v == 15 {
        "0.05882353"
    } else if v == 16 {
        "0.0627451"
    } else if v == 17 {
        "0.06666667"
    } else if v == 18 {
        "0.07058824"
    } else if v == 19 {
        "0.07450981"
    } else if v == 20 {
        "0.078431375"
    } else if v == 21 {
        "0.08235294"
    } else if v == 22 {
        "0.08627451"
    } else if v == 23 {
        "0.09019608"
    } else if v == 24 {
        "0.09411765"
    } else if v == 25 {
        "0.09803922"
    } else if v == 26 {
        "0.101960786"
    } else if v == 27 {
        "0.105882354"
    } else if v == 28 {
        "0.10980392"
    } else if v == 29 {
        "0.11372549"
    } else if v == 30 {
        "0.11764706"
    } else if v == 31 {
        "0.12156863"
    } else if v == 32 {
        "0.1254902"
    } else if v == 33 {
        "0.12941177"
    } else if v == 34 {
        "0.13333334"
    } else if v == 35 {
        "0.13725491"
    } else if v == 36 {
        "0.14117648"
    } else if v == 37 {
        "0.14509805"
    } else if v == 38 {
        "0.14901961"
    } else if v == 39 {
        "0.15294118"
    } else if v == 40 {
        "0.15686275"
    } else if v == 41 {
        "0.16078432"
    } else if v == 42 {
        "0.16470589"
    } else if v == 43 {
        "0.16862746"
    } else if v == 44 {
        "0.17254902"
    } else if v == 45 {
        "0.1764706"
    } else if v == 46 {
        "0.18039216"
    } else if v == 47 {
        "0.18431373"
    } else if v == 48 {
        "0.1882353"
    } else if v == 49 {
        "0.19215687"
    } else if v == 50 {
        "0.19607843"
    } else if v == 51 {
        "0.2"
    } else if v == 52 {
        "0.20392157"
    } else if v == 53 {
        "0.20784314"
    } else if v == 54 {
        "0.21176471"
    } else if v == 55 {
        "0.21568628"
    } else if v == 56 {
        "0.21960784"
    } else if v == 57 {
        "0.22352941"
    } else if v == 58 {
        "0.22745098"
    } else if v == 59 {
        "0.23137255"
    } else if v == 60 {
        "0.23529412"
    } else if v == 61 {
        "0.23921569"
    } else if v == 62 {
        "0.24313726"
    } else if v == 63 {
        "0.24705882"
    } else if v == 64 {
        "0.2509804"
    } else if v == 65 {
        "0.25490198"
    } else if v == 66 {
        "0.25882354"
    } else if v == 67 {
        "0.2627451"
    } else if v == 68 {
        "0.26666668"
    } else if v == 69 {
        "0.27058825"
    } else if v == 70 {
        "0.27450982"
    } else if v == 71 {
        "0.2784314"
    } else if v == 72 {
        "0.28235295"
    } else if v == 73 {
        "0.28627452"
    } else if v == 74 {
        "0.2901961"
    } else if v == 75 {
        "0.29411766"
    } else if v == 76 {
        "0.29803923"
    } else if v == 77 {
        "0.3019608"
    } else if v == 78 {
        "0.30588236"
    } else if v == 79 {
        "0.30980393"
    } else if v == 80 {
        "0.3137255"
    } else if v == 81 {
        "0.31764707"
    } else if v == 82 {
        "0.32156864"
    } else if v == 83 {
        "0.3254902"
    } else if v == 84 {
        "0.32941177"
    } else if v == 85 {
        "0.33333334"
    } else if v == 86 {
        "0.3372549"
    } else if v == 87 {
        "0.34117648"
    } else if v == 88 {
        "0.34509805"
    } else if v == 89 {
        "0.34901962"
    } else if v == 90 {
        "0.3529412"
    } else if v == 91 {
        "0.35686275"
    } else if v == 92 {
        "0.36078432"
    } else if v == 93 {
        "0.3647059"
    } else if v == 94 {
        "0.36862746"
    } else if v == 95 {
        "0.37254903"
    } else if v == 96 {
        "0.3764706"
    } else if v == 97 {
        "0.38039216"
    } else if v == 98 {
        "0.38431373"
    } else if v == 99 {
        "0.3882353"
    } else if v == 100 {
        "0.39215687"
    } else if v == 101 {
        "0.39607844"
    } else if v == 102 {
        "0.4"
    } else if v == 103 {
        "0.40392157"
    } else if v == 104 {
        "0.40784314"
    } else if v == 105 {
        "0.4117647"
    } else if v == 106 {
        "0.41568628"
    } else if v == 107 {
        "0.41960785"
    } else if v == 108 {
        "0.42352942"
    } else if v == 109 {
        "0.42745098"
    } else if v == 110 {
        "0.43137255"
    } else if v == 111 {
        "0.43529412"
    } else if v == 112 {
        "0.4392157"
    } else if v == 113 {
        "0.44313726"
    } else if v == 114 {
        "0.44705883"
    } else if v == 115 {
        "0.4509804"
    } else if v == 116 {
        "0.45490196"
    } else if v == 117 {
        "0.45882353"
    } else if v == 118 {
        "0.4627451"
    } else if v == 119 {
        "0.46666667"
    } else if v == 120 {
        "0.47058824"
    } else if v == 121 {
        "0.4745098"
    } else if v == 122 {
        "0.47843137"
    } else if v == 123 {
        "0.48235294"
    } else if v == 124 {
        "0.4862745"
    } else if v == 125 {
        "0.49019608"
    } else if v == 126 {
        "0.49411765"
    } else if v == 127 {
        "0.49803922"
    } else if v == 128 {
        "0.5019608"
    } else if v == 129 {
        "0.5058824"
    } else if v == 130 {
        "0.50980395"
    } else if v == 131 {
        "0.5137255"
    } else if v == 132 {
        "0.5176471"
    } else if v == 133 {
        "0.52156866"
    } else if v == 134 {
        "0.5254902"
    } else if v == 135 {
        "0.5294118"
    } else if v == 136 {
        "0.53333336"
    } else if v == 137 {
        "0.5372549"
    } else if v == 138 {
        "0.5411765"
    } else if v == 139 {
        "0.54509807"
    } else if v == 140 {
        "0.54901963"
    } else if v == 141 {
        "0.5529412"
    } else if v == 142 {
        "0.5568628"
    } else if v == 143 {
        "0.56078434"
    } else if v == 144 {
        "0.5647059"
    } else if v == 145 {
        "0.5686275"
    } else if v == 146 {
        "0.57254905"
    } else if v == 147 {
        "0.5764706"
    } else if v == 148 {
        "0.5803922"
    } else if v == 149 {
        "0.58431375"
    } else if v == 150 {
        "0.5882353"
    } else if v == 151 {
        "0.5921569"
    } else if v == 152 {
        "0.59607846"
    } else if v == 153 {
        "0.6"
    } else if v == 154 {
        "0.6039216"
    } else if v == 155 {
        "0.60784316"
    } else if v == 156 {
        "0.6117647"
    } else if v == 157 {
        "0.6156863"
    } else if v == 158 {
        "0.61960787"
    } else if v == 159 {
        "0.62352943"
    } else if v == 160 {
        "0.627451"
    } else if v == 161 {
        "0.6313726"
    } else if v == 162 {
        "0.63529414"
    } else if v == 163 {
        "0.6392157"
    } else if v == 164 {
        "0.6431373"
    } else if v == 165 {
        "0.64705884"
    } else if v == 166 {
        "0.6509804"
    } else if v == 167 {
        "0.654902"
    } else if v == 168 {
        "0.65882355"
    } else if v == 169 {
        "0.6627451"
    } else if v == 170 {
        "0.6666667"
    } else if v == 171 {
        "0.67058825"
    } else if v == 172 {
        "0.6745098"
    } else if v == 173 {
        "0.6784314"
    } else if v == 174 {
        "0.68235296"
    } else if v == 175 {
        "0.6862745"
    } else if v == 176 {
        "0.6901961"
    } else if v == 177 {
        "0.69411767"
    } else if v == 178 {
        "0.69803923"
    } else if v == 179 {
        "0.7019608"
    } else if v == 180 {
        "0.7058824"
    } else if v == 181 {
        "0.70980394"
    } else if v == 182 {
        "0.7137255"
    } else if v == 183 {
        "0.7176471"
    } else if v == 184 {
        "0.72156864"
    } else if v == 185 {
        "0.7254902"
    } else if v == 186 {
        "0.7294118"
    } else if v == 187 {
        "0.73333335"
    } else if v == 188 {
        "0.7372549"
    } else if v == 189 {
        "0.7411765"
    } else if v == 190 {
        "0.74509805"
    } else if v == 191 {
        "0.7490196"
    } else if v == 192 {
        "0.7529412"
    } else if v == 193 {
        "0.75686276"
    } else if v == 194 {
        "0.7607843"
    } else if v == 195 {
        "0.7647059"
    } else if v == 196 {
        "0.76862746"
    } else if v == 197 {
        "0.77254903"
    } else if v == 198 {
        "0.7764706"
    } else if v == 199 {
        "0.78039217"
    } else if v == 200 {
        "0.78431374"
    } else if v == 201 {
        "0.7882353"
    } else if v == 202 {
        "0.7921569"
    } else if v == 203 {
        "0.79607844"
    } else if v == 204 {
        "0.8"
    } else if v == 205 {
        "0.8039216"
    } else if v == 206 {
        "0.80784315"
    } else if v == 207 {
        "0.8117647"
    } else if v == 208 {
        "0.8156863"
    } else if v == 209 {
        "0.81960785"
    } else if v == 210 {
        "0.8235294"
    } else if v == 211 {
        "0.827451"
    } else if v == 212 {
        "0.83137256"
    } else if v == 213 {
        "0.8352941"
    } else if v == 214 {
        "0.8392157"
    } else if v == 215 {
        "0.84313726"
    } else if v == 216 {
        "0.84705883"
    } else if v == 217 {
        "0.8509804"
    } else if v == 218 {
        "0.85490197"
    } else if v == 219 {
        "0.85882354"
    } else if v == 220 {
        "0.8627451"
    } else if v == 221 {
        "0.8666667"
    } else if v == 222 {
        "0.87058824"
    } else if v == 223 {
        "0.8745098"
    } else if v == 224 {
        "0.8784314"
    } else if v == 225 {
        "0.88235295"
    } else if v == 226 {
        "0.8862745"
    } else if v == 227 {
        "0.8901961"
    } else if v == 228 {
        "0.89411765"
    } else if v == 229 {
        "0.8980392"
    } else if v == 230 {
        "0.9019608"
    } else if v == 231 {
        "0.90588236"
    } else if v == 232 {
        "0.9098039"
    } else if v == 233 {
        "0.9137255"
    } else if v == 234 {
        "0.91764706"
    } else if v == 235 {
        "0.92156863"
    } else if v == 236 {
        "0.9254902"
    } else if v == 237 {
        "0.92941177"
    } else if v == 238 {
        "0.93333334"
    } else if v == 239 {
        "0.9372549"
    } else if v == 240 {
        "0.9411765"
    } else if v == 241 {
        "0.94509804"
    } else if v == 242 {
        "0.9490196"
    } else if v == 243 {
        "0.9529412"
    } else if v == 244 {
        "0.95686275"
    } else if v == 245 {
        "0.9607843"
    } else if v == 246 {
        "0.9647059"
    } else if v == 247 {
        "0.96862745"
    } else if v == 248 {
        "0.972549"
    } else if v == 249 {
        "0.9764706"
    } else if v == 250 {
        "0.98039216"
    } else if v == 251 {
        "0.9843137"
    } else if v == 252 {
        "0.9882353"
    } else if v == 253 {
        "0.99215686"
    } else if v == 254 {
        "0.99607843"
    } else {
        "1"
    }
}

fn push_fvec_component(out: &mut String, v: u8)
    ensures
        final(out)@ == old(out)@ + fvec_component(v as nat),
{
    push_str(out, fvec_component_text(v));
}

/// Converts a hex colour (e.g. "FF0000") to an `fvec3` string
/// (e.g. "1 0 0").
pub fn hex_to_fvec3(hex: &str) -> (s: String)
    requires
        hex_fields_sliceable(hex@),
    ensures
        s@ == fvec3_text(hex@),
{
    let v = chars_of(hex);
    let lo = skip_leading(&v, '#');
    let n = byte_len_of(&v, lo, v.len(), 6);
    let mut s = String::new();
    if n != 6 {
        push_str(&mut s, "0.5 0.5 0.5");
        assert(s@ =~= "0.5 0.5 0.5"@);
        return s;
    }
    let r = match hex_field_of(&v, lo, v.len(), 0) { Some(x) => x, None => 128 };
    let g = match hex_field_of(&v, lo, v.len(), 1) { Some(x) => x, None => 128 };
    let b = match hex_field_of(&v, lo, v.len(), 2) { Some(x) => x, None => 128 };
    push_fvec_component(&mut s, r);
    push_char(&mut s, ' ');
    push_fvec_component(&mut s, g);
    push_char(&mut s, ' ');
    push_fvec_component(&mut s, b);
    assert(s@ =~= fvec3_text(hex@));
    s
}

} // verus!
