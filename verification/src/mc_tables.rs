//! The marching-cubes topology table and its decoding.
//!
//! One flat table drives the whole extractor: the first 256 entries map a
//! cell's 8-bit corner-sign code to its topological case and configuration,
//! and the remaining entries hold the triangle lists of every resolved case
//! variant as packed nibble triples (each nibble selects one of the 13
//! edge-or-center vertices of a cell). The sweep that samples scalar fields
//! consumes the table through the bounds-checked accessors below.

use vstd::prelude::*;

verus! {

/// Number of entries in the packed topology table.
pub const MC_LUT_LEN: usize = 2310;

/// The packed MC33 case and triangulation table.
pub const MARCHING_CUBES_LUT: [u16; 2310] = [
    0x0000, 0x0885, 0x0886, 0x0895, 0x0883, 0x1816, 0x089D, 0x0943,
    0x0884, 0x0897, 0x1814, 0x0916, 0x0891, 0x094C, 0x091F, 0x048F,
    0x0882, 0x089B, 0x1808, 0x0934, 0x2803, 0x3817, 0x3814, 0x0525,
    0x180E, 0x0928, 0x4802, 0x049D, 0x3815, 0x0541, 0x6004, 0x0110,
    0x0881, 0x180A, 0x0899, 0x0922, 0x1806, 0x4800, 0x0913, 0x0499,
    0x2802, 0x380E, 0x3811, 0x053D, 0x380D, 0x6002, 0x0521, 0x010D,
    0x088B, 0x0946, 0x0937, 0x0493, 0x3813, 0x6003, 0x0545, 0x012E,
    0x380F, 0x0531, 0x600A, 0x011C, 0x5001, 0x3001, 0x3009, 0x0087,
    0x0880, 0x2801, 0x1804, 0x3807, 0x088F, 0x380B, 0x092B, 0x0539,
    0x1802, 0x3806, 0x4806, 0x6001, 0x0925, 0x051D, 0x0495, 0x010A,
    0x1812, 0x380A, 0x4805, 0x6009, 0x3816, 0x5002, 0x6008, 0x3010,
    0x4801, 0x6000, 0x7000, 0x4003, 0x6006, 0x3004, 0x4007, 0x1010,
    0x0889, 0x3808, 0x093A, 0x052D, 0x0949, 0x6005, 0x0491, 0x0131,
    0x380C, 0x5000, 0x600B, 0x3012, 0x0549, 0x3002, 0x0119, 0x008D,
    0x0907, 0x0535, 0x04A1, 0x013D, 0x0529, 0x3005, 0x0140, 0x0093,
    0x6007, 0x3000, 0x4004, 0x1000, 0x3003, 0x2000, 0x100C, 0x007F,
    0x0380, 0x0109, 0x021A, 0x0B32, 0x0945, 0x0748, 0x07B6, 0x06A5,
    0x1189, 0x0138, 0x129A, 0x0092, 0x1B3A, 0x031A, 0x12B0, 0x0B80,
    0x1045, 0x0105, 0x1975, 0x0987, 0x1340, 0x0374, 0x1BA5, 0x07B5,
    0x1486, 0x0B68, 0x1615, 0x0216, 0x1726, 0x0732, 0x146A, 0x094A,
    0x1945, 0x0038, 0x1109, 0x0748, 0x16A5, 0x0109, 0x1945, 0x021A,
    0x16A5, 0x032B, 0x17B6, 0x021A, 0x17B6, 0x0038, 0x1B32, 0x0748,
    0x121A, 0x0038, 0x1B32, 0x0109, 0x16A5, 0x0874, 0x1945, 0x07B6,
    0x1905, 0x1035, 0x1453, 0x0843, 0x1974, 0x1917, 0x1871, 0x0081,
    0x1605, 0x1950, 0x116A, 0x0106, 0x1A45, 0x1942, 0x124A, 0x0192,
    0x13A5, 0x1B56, 0x132A, 0x0B35, 0x11A6, 0x17B2, 0x1217, 0x0671,
    0x1786, 0x1806, 0x1B60, 0x03B0, 0x1834, 0x1324, 0x1742, 0x0B72,
    0x123A, 0x138A, 0x11A8, 0x0018, 0x1129, 0x12B9, 0x109B, 0x030B,
    0x14A5, 0x1A86, 0x148A, 0x0768, 0x1B65, 0x1794, 0x17B9, 0x059B,
    0x16A5, 0x0380, 0x17B6, 0x0109, 0x121A, 0x0748, 0x1945, 0x0B32,
    0x10A5, 0x1805, 0x1863, 0x1685, 0x16A3, 0x03A0, 0x1796, 0x11B6,
    0x1169, 0x1970, 0x17B0, 0x00B1, 0x174A, 0x17A2, 0x1872, 0x1A41,
    0x1481, 0x0182, 0x12B5, 0x1B34, 0x1943, 0x15B4, 0x1592, 0x0293,
    0x1B9A, 0x1930, 0x09B3, 0x180A, 0x101A, 0x0B8A, 0x189B, 0x1B12,
    0x0B91, 0x128A, 0x1382, 0x09A8, 0x1246, 0x1419, 0x0421, 0x18A5,
    0x1485, 0x0BA8, 0x1026, 0x1067, 0x0078, 0x1845, 0x1538, 0x0135,
    0x176A, 0x1A87, 0x098A, 0x1715, 0x11B2, 0x017B, 0x1175, 0x1708,
    0x0710, 0x1426, 0x1832, 0x0248, 0x106A, 0x1460, 0x010A, 0x1149,
    0x1174, 0x0371, 0x142B, 0x174B, 0x0024, 0x12A5, 0x1532, 0x0735,
    0x1635, 0x136B, 0x0153, 0x1695, 0x1609, 0x0206, 0x1935, 0x1390,
    0x0753, 0x13B6, 0x1360, 0x0406, 0x19BA, 0x17B4, 0x0B94, 0x17A6,
    0x171A, 0x0317, 0x1A25, 0x1245, 0x0042, 0x1965, 0x19B6, 0x08B9,
    0x146A, 0x1A94, 0x0380, 0x16A5, 0x1189, 0x0138, 0x16A5, 0x180B,
    0x002B, 0x1BA5, 0x157B, 0x0038, 0x1615, 0x1621, 0x0803, 0x16A5,
    0x1034, 0x0374, 0x18B6, 0x1648, 0x0109, 0x1BA5, 0x17B5, 0x0109,
    0x129A, 0x17B6, 0x0092, 0x17B6, 0x1189, 0x0138, 0x1726, 0x1732,
    0x0109, 0x1045, 0x17B6, 0x0105, 0x129A, 0x1209, 0x0748, 0x1975,
    0x121A, 0x0879, 0x1486, 0x121A, 0x08B6, 0x131A, 0x1B3A, 0x0874,
    0x121A, 0x1374, 0x0403, 0x1615, 0x1216, 0x0874, 0x1945, 0x12B0,
    0x0B80, 0x1945, 0x1B3A, 0x031A, 0x146A, 0x194A, 0x032B, 0x1975,
    0x1987, 0x02B3, 0x1045, 0x1510, 0x0B32, 0x1945, 0x1726, 0x0732,
    0x136A, 0x190A, 0x1094, 0x1804, 0x1684, 0x1386, 0x03A0, 0x1895,
    0x11A5, 0x136A, 0x1591, 0x13A1, 0x1863, 0x0856, 0x10A5, 0x1AB6,
    0x102A, 0x1A2B, 0x186B, 0x1568, 0x0058, 0x10A5, 0x1785, 0x187B,
    0x138B, 0x1A3B, 0x103A, 0x0058, 0x1685, 0x1236, 0x1321, 0x1031,
    0x1501, 0x1805, 0x0863, 0x10A5, 0x1456, 0x1376, 0x1674, 0x1054,
    0x13A0, 0x0A36, 0x1496, 0x1948, 0x1098, 0x1B08, 0x110B, 0x161B,
    0x0169, 0x1795, 0x11A5, 0x11BA, 0x1915, 0x1097, 0x1B07, 0x00B1,
    0x19A6, 0x16A2, 0x1B62, 0x10B2, 0x17B0, 0x1970, 0x0796, 0x1796,
    0x113B, 0x1B38, 0x17B8, 0x1978, 0x1169, 0x01B6, 0x1796, 0x1730,
    0x1032, 0x1102, 0x1612, 0x1916, 0x0970, 0x1165, 0x1745, 0x1756,
    0x1704, 0x1B61, 0x10B1, 0x0B07, 0x149A, 0x1208, 0x1809, 0x1489,
    0x174A, 0x127A, 0x0728, 0x19A5, 0x175A, 0x11A9, 0x1819, 0x1218,
    0x1728, 0x027A, 0x14A6, 0x18B2, 0x12B6, 0x1A26, 0x11A4, 0x1814,
    0x0182, 0x141A, 0x1B7A, 0x17B3, 0x1873, 0x1183, 0x1481, 0x04A7,
    0x141A, 0x1014, 0x1103, 0x1213, 0x1723, 0x1A27, 0x04A7, 0x1645,
    0x1415, 0x1746, 0x1276, 0x1872, 0x1182, 0x0814, 0x1925, 0x1B84,
    0x1480, 0x1940, 0x1290, 0x1B52, 0x05B4, 0x19A5, 0x1319, 0x191A,
    0x1B5A, 0x145B, 0x134B, 0x0439, 0x1B6A, 0x1B46, 0x12BA, 0x192A,
    0x1329, 0x1439, 0x034B, 0x12B5, 0x1398, 0x1387, 0x1B37, 0x15B7,
    0x1925, 0x0293, 0x1B45, 0x1125, 0x1210, 0x1320, 0x1430, 0x1B34,
    0x0B52, 0x1265, 0x1574, 0x1567, 0x1347, 0x1943, 0x1293, 0x0925,
    0x136A, 0x190A, 0x13A0, 0x1684, 0x0386, 0x1685, 0x136A, 0x1895,
    0x113A, 0x0863, 0x10A5, 0x1856, 0x102A, 0x186B, 0x0058, 0x10A5,
    0x1785, 0x1058, 0x1A3B, 0x003A, 0x1685, 0x1236, 0x1863, 0x1501,
    0x0805, 0x10A5, 0x1A36, 0x1054, 0x1376, 0x03A0, 0x1496, 0x1169,
    0x1B08, 0x110B, 0x061B, 0x1795, 0x11BA, 0x10B1, 0x1097, 0x0B07,
    0x19A6, 0x1796, 0x10B2, 0x17B0, 0x0970, 0x1796, 0x113B, 0x161B,
    0x1978, 0x0169, 0x1796, 0x1126, 0x1730, 0x1970, 0x0916, 0x1165,
    0x1704, 0x1B07, 0x1B61, 0x00B1, 0x149A, 0x1208, 0x1728, 0x174A,
    0x027A, 0x1A75, 0x127A, 0x1819, 0x1218, 0x0728, 0x14A6, 0x18B2,
    0x1182, 0x11A4, 0x0814, 0x174A, 0x1B7A, 0x1183, 0x1481, 0x0A41,
    0x141A, 0x1014, 0x1723, 0x1A27, 0x04A7, 0x1415, 0x1276, 0x1814,
    0x1872, 0x0182, 0x1925, 0x1B84, 0x15B4, 0x1290, 0x0B52, 0x1AB5,
    0x1319, 0x1439, 0x145B, 0x034B, 0x1B46, 0x192A, 0x134B, 0x1329,
    0x0439, 0x12B5, 0x1398, 0x1293, 0x15B7, 0x0925, 0x12B5, 0x1125,
    0x1430, 0x1B34, 0x05B4, 0x1265, 0x1925, 0x1734, 0x1943, 0x0293,
    0x1945, 0x121A, 0x07B6, 0x12B3, 0x1874, 0x0109, 0x16A5, 0x1B32,
    0x0874, 0x1945, 0x121A, 0x0038, 0x1945, 0x17B6, 0x0038, 0x16A5,
    0x1B32, 0x0109, 0x16A5, 0x1109, 0x0748, 0x121A, 0x17B6, 0x0380,
    0x1B65, 0x19B5, 0x121A, 0x1794, 0x0B97, 0x1B92, 0x1874, 0x1B30,
    0x19B0, 0x0912, 0x14A5, 0x1A86, 0x1B32, 0x1876, 0x08A4, 0x1945,
    0x138A, 0x1801, 0x1A81, 0x0A23, 0x1B65, 0x1380, 0x1794, 0x1B97,
    0x09B5, 0x16A5, 0x1129, 0x1B92, 0x1B30, 0x09B0, 0x14A5, 0x1876,
    0x1109, 0x18A4, 0x0A86, 0x17B6, 0x123A, 0x18A3, 0x1801, 0x0A81,
    0x1A45, 0x17B6, 0x124A, 0x1219, 0x0429, 0x1109, 0x1483, 0x1243,
    0x12B7, 0x0427, 0x16A5, 0x1274, 0x12B7, 0x1483, 0x0243, 0x1A45,
    0x1038, 0x1219, 0x1429, 0x024A, 0x1945, 0x1806, 0x1678, 0x103B,
    0x060B, 0x1605, 0x1095, 0x116A, 0x132B, 0x0061, 0x1605, 0x1095,
    0x116A, 0x1748, 0x0061, 0x1786, 0x121A, 0x103B, 0x160B, 0x0068,
    0x1945, 0x11A6, 0x1716, 0x17B2, 0x0172, 0x132B, 0x1749, 0x1108,
    0x1718, 0x0179, 0x13A5, 0x1B56, 0x1748, 0x135B, 0x032A, 0x1905,
    0x121A, 0x1350, 0x1384, 0x0534, 0x1905, 0x1534, 0x17B6, 0x1384,
    0x0350, 0x13A5, 0x1B56, 0x1109, 0x132A, 0x035B, 0x16A5, 0x1749,
    0x1179, 0x1108, 0x0718, 0x11A6, 0x1380, 0x17B2, 0x1172, 0x0716,
    0x1C65, 0x1C5A, 0x17C4, 0x1C7B, 0x1C94, 0x1C19, 0x1C21, 0x1CA2,
    0x0CB6, 0x1C74, 0x1CB7, 0x1C2B, 0x11C9, 0x1C12, 0x1C09, 0x1C30,
    0x1C83, 0x0C48, 0x1CA5, 0x1C6A, 0x1C32, 0x1C83, 0x1C48, 0x1C54,
    0x1C76, 0x1CB7, 0x0C2B, 0x1AC5, 0x1C38, 0x1C23, 0x1CA2, 0x1C45,
    0x1C94, 0x1C19, 0x1C01, 0x0C80, 0x1C65, 0x19C5, 0x1CB6, 0x1C3B,
    0x1C03, 0x1C80, 0x17C4, 0x1C78, 0x0C94, 0x16C5, 0x1C6A, 0x1C95,
    0x1C09, 0x1C30, 0x1CB3, 0x1C2B, 0x1C12, 0x0CA1, 0x1C95, 0x1C6A,
    0x1C10, 0x1CA1, 0x1C48, 0x1C76, 0x1C87, 0x1C54, 0x0C09, 0x1C1A,
    0x17C6, 0x1C01, 0x1C80, 0x1C78, 0x1CB6, 0x1C3B, 0x1C23, 0x0CA2,
    0x1C65, 0x1CA6, 0x1C59, 0x11C2, 0x1CB2, 0x17C4, 0x1C7B, 0x1C94,
    0x0C1A, 0x1C2B, 0x11C9, 0x1C12, 0x1C49, 0x1C74, 0x1C87, 0x1C08,
    0x1C30, 0x0CB3, 0x1CA5, 0x1C54, 0x1C76, 0x1C48, 0x1C2A, 0x1C32,
    0x1CB3, 0x1C6B, 0x0C87, 0x1C45, 0x12CA, 0x1C84, 0x1C38, 0x1C23,
    0x1C59, 0x1C1A, 0x1C01, 0x0C90, 0x1C65, 0x1C03, 0x1C90, 0x1C59,
    0x1CB6, 0x17C4, 0x1C7B, 0x1C84, 0x0C38, 0x1CA5, 0x1C56, 0x1C09,
    0x1C30, 0x1CB3, 0x1C6B, 0x1C2A, 0x1C12, 0x0C91, 0x1CA5, 0x1C6A,
    0x1C54, 0x1C76, 0x1C87, 0x1C08, 0x11C9, 0x1C10, 0x0C49, 0x1CA6,
    0x17C6, 0x1C1A, 0x1C01, 0x1C80, 0x1C38, 0x1C23, 0x1CB2, 0x0C7B,
    0x1AC5, 0x1CA6, 0x1C94, 0x1C19, 0x1C21, 0x1CB2, 0x1C7B, 0x1C67,
    0x0C45, 0x1C2B, 0x11C9, 0x1C49, 0x1C74, 0x1CB7, 0x1C32, 0x1C83,
    0x1C08, 0x0C10, 0x1CA5, 0x1C56, 0x1C2A, 0x1C32, 0x1C83, 0x1C48,
    0x1C74, 0x1CB7, 0x0C6B, 0x1AC5, 0x12CA, 0x1C45, 0x1C84, 0x1C38,
    0x1C03, 0x1C90, 0x1C19, 0x0C21, 0x1C45, 0x1CB6, 0x1C3B, 0x1C03,
    0x1C90, 0x1C59, 0x1C84, 0x1C78, 0x0C67, 0x16C5, 0x1C2A, 0x13CB,
    0x1C6B, 0x1C95, 0x1C09, 0x1C10, 0x1CA1, 0x0C32, 0x16C5, 0x1C6A,
    0x1C95, 0x1C74, 0x17C8, 0x1C08, 0x1C10, 0x1CA1, 0x0C49, 0x1CA6,
    0x1C80, 0x1C78, 0x1C67, 0x1C1A, 0x1C21, 0x1CB2, 0x1C3B, 0x0C03,
    0x1A65, 0x1419, 0x11B2, 0x17B4, 0x04B1, 0x174B, 0x1149, 0x12B1,
    0x11B4, 0x0830, 0x12A5, 0x1485, 0x1B76, 0x1832, 0x0582, 0x1A25,
    0x1238, 0x1458, 0x1528, 0x0019, 0x1965, 0x1390, 0x1B63, 0x1693,
    0x0784, 0x1695, 0x112A, 0x1093, 0x1B36, 0x0396, 0x1495, 0x176A,
    0x110A, 0x1870, 0x07A0, 0x17A6, 0x1780, 0x11A0, 0x1A70, 0x03B2,
    0x1465, 0x1459, 0x121A, 0x1AB2, 0x1BA6, 0x17B6, 0x1476, 0x15A1,
    0x0951, 0x1084, 0x1748, 0x18B7, 0x1B83, 0x12B3, 0x1109, 0x1130,
    0x1123, 0x0904, 0x16A5, 0x132B, 0x1B83, 0x1874, 0x18B7, 0x1576,
    0x1547, 0x16B2, 0x0A62, 0x1945, 0x115A, 0x1038, 0x1023, 0x1201,
    0x1A21, 0x1519, 0x1908, 0x0498, 0x1465, 0x1380, 0x1890, 0x1984,
    0x1594, 0x1647, 0x1B67, 0x1783, 0x0B73, 0x16A5, 0x1A95, 0x19A1,
    0x1091, 0x1312, 0x1301, 0x1B32, 0x12A6, 0x0B26, 0x16A5, 0x1109,
    0x19A1, 0x1A95, 0x1754, 0x1765, 0x1874, 0x1490, 0x0840, 0x1BA6,
    0x1380, 0x1378, 0x173B, 0x167B, 0x1AB2, 0x11A2, 0x1230, 0x0120,
    0x1B9A, 0x09B8, 0x1426, 0x0024, 0x1375, 0x0135, 0x17A6, 0x1180,
    0x1781, 0x0A71, 0x1B42, 0x1129, 0x1492, 0x04B7, 0x1A35, 0x13A2,
    0x1853, 0x0584, 0x1965, 0x13B0, 0x10B6, 0x0069, 0x146A, 0x194A,
    0x1028, 0x082B, 0x17A5, 0x1189, 0x1381, 0x07BA, 0x1625, 0x1340,
    0x1743, 0x0521, 0x1846, 0x190A, 0x186B, 0x002A, 0x1795, 0x11BA,
    0x1789, 0x03B1, 0x1015, 0x1236, 0x1540, 0x0763, 0x126A, 0x1029,
    0x12A9, 0x1B62, 0x16B8, 0x1468, 0x1489, 0x0809, 0x19A5, 0x1789,
    0x1957, 0x11A9, 0x1A13, 0x1BA3, 0x1B37, 0x0387, 0x1405, 0x1756,
    0x1015, 0x1021, 0x1320, 0x1237, 0x1627, 0x0745, 0x146A, 0x1A94,
    0x1904, 0x1408, 0x1B80, 0x1B02, 0x1AB2, 0x0A6B, 0x1BA5, 0x1189,
    0x1138, 0x13B8, 0x18B7, 0x157B, 0x115A, 0x0195, 0x1465, 0x1156,
    0x1621, 0x1231, 0x1130, 0x1403, 0x1437, 0x0647, 0x19CA, 0x1AC6,
    0x190C, 0x102C, 0x12BC, 0x18CB, 0x184C, 0x046C, 0x1C95, 0x1CBA,
    0x1C7B, 0x1C57, 0x19C8, 0x1C38, 0x1C13, 0x01CA, 0x1C15, 0x12C6,
    0x1C21, 0x14C5, 0x1C76, 0x17C3, 0x1C03, 0x0C40, 0x1C46, 0x1C2A,
    0x1C94, 0x1CA9, 0x12C0, 0x1C80, 0x1CB8, 0x0BC6, 0x1CA5, 0x17C5,
    0x1CBA, 0x1C3B, 0x11C9, 0x13C1, 0x1C89, 0x08C7, 0x16C5, 0x12C6,
    0x123C, 0x174C, 0x137C, 0x10C4, 0x101C, 0x015C, 0x16B5, 0x1B80,
    0x15B0, 0x0150, 0x1786, 0x1189, 0x1126, 0x0681, 0x129A, 0x1974,
    0x1792, 0x0372, 0x14A5, 0x13BA, 0x13A4, 0x0340, 0x1975, 0x1902,
    0x1927, 0x072B, 0x116A, 0x1846, 0x1861, 0x0813, 0x176A, 0x1A90,
    0x17A0, 0x0370, 0x1B1A, 0x1140, 0x11B4, 0x074B, 0x1125, 0x1285,
    0x12B8, 0x0458, 0x1695, 0x1236, 0x1396, 0x0389, 0x1496, 0x1139,
    0x1369, 0x063B, 0x12A5, 0x1785, 0x1825, 0x0802, 0x1246, 0x1192,
    0x1429, 0x0038, 0x1945, 0x181A, 0x1180, 0x0B8A, 0x16A5, 0x1129,
    0x1B92, 0x089B, 0x16A5, 0x1749, 0x1179, 0x0371, 0x123A, 0x17B6,
    0x18A3, 0x09A8, 0x16A5, 0x1274, 0x172B, 0x0024, 0x1715, 0x17B2,
    0x1172, 0x0380, 0x19BA, 0x1794, 0x1B97, 0x0803, 0x1406, 0x121A,
    0x103B, 0x060B, 0x1905, 0x121A, 0x1350, 0x0753, 0x1345, 0x17B6,
    0x1384, 0x0135, 0x1945, 0x1786, 0x1068, 0x0260, 0x1246, 0x1384,
    0x1342, 0x0190, 0x1A45, 0x14A8, 0x18AB, 0x0019, 0x16B5, 0x15B9,
    0x112A, 0x09B8, 0x1495, 0x116A, 0x1617, 0x0713, 0x1786, 0x168A,
    0x1A89, 0x023B, 0x14A5, 0x1B76, 0x1A42, 0x0240, 0x1715, 0x1180,
    0x1817, 0x0B23, 0x19BA, 0x13B0, 0x10B9, 0x0784, 0x11A6, 0x1160,
    0x1064, 0x03B2, 0x1A35, 0x123A, 0x1537, 0x0019, 0x1B65, 0x1B53,
    0x1351, 0x0784, 0x1065, 0x1905, 0x1602, 0x0784, 0x1846, 0x1948,
    0x1980, 0x1901, 0x1863, 0x1362, 0x1132, 0x0103, 0x1AB5, 0x1159,
    0x11A5, 0x1190, 0x15B4, 0x14B8, 0x1048, 0x0094, 0x1685, 0x126A,
    0x1589, 0x11A5, 0x12B6, 0x16B8, 0x12A1, 0x0159, 0x19A5, 0x1A36,
    0x191A, 0x1A13, 0x1954, 0x1637, 0x1467, 0x0456, 0x126A, 0x1738,
    0x137B, 0x1789, 0x13B2, 0x1796, 0x169A, 0x02B6, 0x10A5, 0x1B6A,
    0x1745, 0x1756, 0x1540, 0x176B, 0x1A02, 0x0BA2, 0x1015, 0x1102,
    0x1203, 0x123B, 0x1058, 0x1857, 0x1B87, 0x0B38, 0x13BA, 0x1784,
    0x137B, 0x1738, 0x13A0, 0x10A9, 0x1409, 0x0480, 0x1B6A, 0x1BA2,
    0x1A64, 0x1B23, 0x1A41, 0x1140, 0x1310, 0x0321, 0x19A5, 0x1320,
    0x1021, 0x1237, 0x1019, 0x127A, 0x1A75, 0x091A, 0x1165, 0x1456,
    0x1467, 0x1478, 0x161B, 0x1B13, 0x18B3, 0x087B, 0x1265, 0x1809,
    0x1894, 0x1902, 0x1847, 0x1925, 0x1756, 0x0745, 0x1946, 0x1312,
    0x1013, 0x1621, 0x1803, 0x1961, 0x1498, 0x0908, 0x1945, 0x115A,
    0x1084, 0x1904, 0x1B80, 0x11B0, 0x1AB1, 0x0195, 0x16A5, 0x1195,
    0x1A15, 0x1891, 0x1281, 0x1B82, 0x1B26, 0x02A6, 0x16A5, 0x1764,
    0x1546, 0x1374, 0x1934, 0x1139, 0x119A, 0x095A, 0x12A6, 0x1B26,
    0x19A2, 0x17B6, 0x1392, 0x1893, 0x1837, 0x03B7, 0x16A5, 0x1B2A,
    0x16BA, 0x102B, 0x1754, 0x170B, 0x1407, 0x0765, 0x1B25, 0x178B,
    0x13B8, 0x157B, 0x1038, 0x1152, 0x1120, 0x0230, 0x194A, 0x1490,
    0x1840, 0x1380, 0x17A4, 0x1BA7, 0x1B73, 0x0783, 0x1BA6, 0x1130,
    0x1231, 0x1403, 0x1A21, 0x1B43, 0x164B, 0x0B2A, 0x1A95, 0x119A,
    0x1759, 0x121A, 0x1079, 0x1370, 0x1302, 0x0012, 0x1465, 0x13B8,
    0x178B, 0x1138, 0x167B, 0x1418, 0x1514, 0x0476, 0x1945, 0x1765,
    0x1754, 0x1267, 0x1827, 0x1028, 0x1089, 0x0849, 0x12C6, 0x1C19,
    0x11C0, 0x13C2, 0x180C, 0x18C3, 0x194C, 0x046C, 0x1AC5, 0x119C,
    0x14C9, 0x145C, 0x1ABC, 0x10C8, 0x1B8C, 0x01C0, 0x1CA5, 0x156C,
    0x12AC, 0x16BC, 0x1B8C, 0x11C9, 0x189C, 0x02C1, 0x1CA5, 0x1AC6,
    0x14C5, 0x16C7, 0x137C, 0x11C9, 0x113C, 0x09C4, 0x12CA, 0x1CB6,
    0x13BC, 0x178C, 0x167C, 0x189C, 0x19AC, 0x03C2, 0x1CA5, 0x154C,
    0x176C, 0x1AC6, 0x140C, 0x1BC2, 0x102C, 0x07CB, 0x1C15, 0x123C,
    0x101C, 0x18C3, 0x180C, 0x1BC7, 0x157C, 0x02CB, 0x1CBA, 0x1C38,
    0x17C4, 0x1BC7, 0x1C84, 0x1C90, 0x1CA9, 0x03C0, 0x16CA, 0x11C2,
    0x1C03, 0x12CB, 0x1C3B, 0x1C40, 0x1C64, 0x0AC1, 0x1AC5, 0x1C19,
    0x11C2, 0x13C0, 0x10C9, 0x1C37, 0x1C75, 0x02CA, 0x1C45, 0x17C6,
    0x178C, 0x1BC3, 0x16CB, 0x113C, 0x151C, 0x04C8, 0x1C45, 0x1C26,
    0x184C, 0x190C, 0x159C, 0x102C, 0x17C6, 0x08C7, 0x146C, 0x190C,
    0x184C, 0x13C0, 0x138C, 0x11C2, 0x162C, 0x09C1, 0x1C45, 0x10C9,
    0x14C8, 0x159C, 0x1B8C, 0x11AC, 0x1ABC, 0x01C0, 0x16C5, 0x16AC,
    0x15C9, 0x11CA, 0x189C, 0x12BC, 0x1B8C, 0x02C1, 0x16C5, 0x16AC,
    0x195C, 0x1A1C, 0x113C, 0x1C74, 0x137C, 0x09C4, 0x16CA, 0x12CB,
    0x17BC, 0x17C6, 0x19AC, 0x138C, 0x189C, 0x03C2, 0x16C5, 0x15CA,
    0x1BC6, 0x1AC2, 0x102C, 0x174C, 0x140C, 0x07CB, 0x17C5, 0x1C3B,
    0x18C7, 0x103C, 0x10C8, 0x121C, 0x115C, 0x02CB, 0x19CA, 0x1C80,
    0x1C94, 0x18C7, 0x1C47, 0x1BC3, 0x1CBA, 0x03C0, 0x12CA, 0x1CB6,
    0x1C23, 0x1BC3, 0x1C64, 0x1C01, 0x1C40, 0x0AC1, 0x19C5, 0x1C1A,
    0x11C0, 0x1C90, 0x1C75, 0x13C2, 0x1C37, 0x02CA, 0x1C65, 0x17C4,
    0x1BC7, 0x1B6C, 0x151C, 0x18C3, 0x113C, 0x04C8, 0x1C65, 0x17C4,
    0x194C, 0x19C5, 0x126C, 0x180C, 0x102C, 0x08C7, 0x1945, 0x121A,
    0x17B6, 0x0380, 0x1A65, 0x1190, 0x1B23, 0x0784, 0x1B65, 0x1B59,
    0x121A, 0x1380, 0x1794, 0x0B97, 0x1945, 0x17B6, 0x181A, 0x1801,
    0x1A38, 0x0A23, 0x1945, 0x121A, 0x10B6, 0x103B, 0x1680, 0x0678,
    0x1945, 0x11A6, 0x1038, 0x1172, 0x17B2, 0x0167, 0x1A45, 0x17B6,
    0x1380, 0x1429, 0x1219, 0x04A2, 0x1A65, 0x1794, 0x1197, 0x13B2,
    0x1817, 0x0801, 0x1905, 0x121A, 0x1345, 0x17B6, 0x1350, 0x0384,
    0x1065, 0x1590, 0x11A6, 0x1784, 0x1B23, 0x0016, 0x1B65, 0x135A,
    0x1784, 0x1019, 0x1B53, 0x0A23, 0x1A65, 0x1190, 0x1342, 0x1384,
    0x1472, 0x07B2, 0x1A65, 0x1784, 0x10B9, 0x103B, 0x1B29, 0x0219,
    0x1A45, 0x18A6, 0x1190, 0x13B2, 0x14A8, 0x0678, 0x1C65, 0x1C59,
    0x121A, 0x14C9, 0x10C8, 0x1C78, 0x1C47, 0x1C3B, 0x16CB, 0x0C03,
    0x1945, 0x1CA6, 0x13C0, 0x11C2, 0x1CB2, 0x1C3B, 0x1C80, 0x1C78,
    0x17C6, 0x0C1A, 0x1C65, 0x1CA6, 0x19C5, 0x11AC, 0x1C21, 0x1CB2,
    0x17C4, 0x1BC7, 0x1C94, 0x0803, 0x1945, 0x12CA, 0x1CB6, 0x1C3B,
    0x1C23, 0x1C1A, 0x1C01, 0x1C78, 0x10C8, 0x0C67, 0x1C65, 0x1A6C,
    0x17C4, 0x159C, 0x194C, 0x178C, 0x180C, 0x11AC, 0x11C0, 0x03B2,
    0x1945, 0x1CA6, 0x17BC, 0x18C3, 0x1C23, 0x1CB2, 0x1C67, 0x1C01,
    0x1AC1, 0x0C80, 0x1C65, 0x1C5A, 0x1CB6, 0x12CA, 0x17C4, 0x1C7B,
    0x1C19, 0x14C9, 0x1C21, 0x0038, 0x1AC5, 0x1CA6, 0x1C45, 0x17C6,
    0x1C94, 0x1C19, 0x1CB2, 0x11C2, 0x1C7B, 0x0380, 0x1A65, 0x1C3B,
    0x17C4, 0x18C7, 0x180C, 0x103C, 0x1B2C, 0x1C19, 0x121C, 0x094C,
    0x1AC5, 0x1C45, 0x17B6, 0x10C8, 0x14C9, 0x1C19, 0x1C01, 0x1C38,
    0x1C23, 0x02CA, 0x1A65, 0x119C, 0x11C0, 0x13C2, 0x138C, 0x180C,
    0x194C, 0x17BC, 0x17C4, 0x0B2C, 0x1AC5, 0x1A6C, 0x1C19, 0x194C,
    0x145C, 0x167C, 0x180C, 0x18C7, 0x101C, 0x0B23, 0x1C65, 0x16CA,
    0x12CB, 0x159C, 0x121C, 0x11AC, 0x103C, 0x10C9, 0x13BC, 0x0784,
    0x1C45, 0x17C6, 0x1C59, 0x121A, 0x1C84, 0x1C78, 0x1CB6, 0x1C3B,
    0x1C90, 0x03C0, 0x1C65, 0x19C5, 0x121A, 0x1C38, 0x17C4, 0x1BC7,
    0x1C84, 0x1C03, 0x1C90, 0x0CB6, 0x1C45, 0x16CA, 0x10C9, 0x14C8,
    0x159C, 0x101C, 0x11AC, 0x167C, 0x178C, 0x023B, 0x1C65, 0x12CA,
    0x13C2, 0x159C, 0x11C0, 0x11AC, 0x13BC, 0x1B6C, 0x190C, 0x0784,
    0x19C5, 0x12CA, 0x1C45, 0x17B6, 0x1AC1, 0x1C01, 0x1C90, 0x1C84,
    0x1C23, 0x08C3, 0x1A65, 0x14C8, 0x10C9, 0x103C, 0x138C, 0x147C,
    0x17BC, 0x121C, 0x12CB, 0x019C, 0x1AC5, 0x15C4, 0x17B6, 0x1C19,
    0x11C2, 0x13C0, 0x1C90, 0x1CA2, 0x1C84, 0x0C38, 0x1AC5, 0x1B6C,
    0x1C19, 0x1A2C, 0x121C, 0x190C, 0x103C, 0x1BC3, 0x165C, 0x0784,
    0x1AC5, 0x16CA, 0x12CB, 0x145C, 0x167C, 0x17BC, 0x123C, 0x138C,
    0x14C8, 0x0019, 0x1C65, 0x15AC, 0x17C4, 0x17BC, 0x1B6C, 0x1A2C,
    0x138C, 0x13C2, 0x184C, 0x0190, 0x1AC5, 0x1B6C, 0x145C, 0x1C78,
    0x1BC3, 0x167C, 0x184C, 0x1A2C, 0x123C, 0x0019, 0x1C65, 0x1C5A,
    0x1C90, 0x1C03, 0x1C38, 0x1C84, 0x1C47, 0x1C7B, 0x1CB6, 0x1CA2,
    0x1C21, 0x0C19, 0x1AC5, 0x1A6C, 0x138C, 0x123C, 0x1B2C, 0x145C,
    0x17BC, 0x167C, 0x194C, 0x119C, 0x101C, 0x080C, 0x1C65, 0x1CA6,
    0x1CB2, 0x1C59, 0x1C21, 0x1C1A, 0x1C94, 0x1C47, 0x1C78, 0x1C80,
    0x1C03, 0x0C3B, 0x1C45, 0x1B6C, 0x159C, 0x11AC, 0x101C, 0x190C,
    0x184C, 0x178C, 0x167C, 0x13BC, 0x123C, 0x0A2C, 0x1A65, 0x1784,
    0x1B87, 0x18B3, 0x1804, 0x1094, 0x1190, 0x1310, 0x1213, 0x0B23,
    0x1945, 0x115A, 0x17B6, 0x1380, 0x1302, 0x1012, 0x1908, 0x1498,
    0x1951, 0x0A21, 0x1A65, 0x19A5, 0x1A91, 0x1A26, 0x12B6, 0x13B2,
    0x1132, 0x1031, 0x1901, 0x0784, 0x1945, 0x1BA6, 0x1380, 0x1837,
    0x13B7, 0x1230, 0x1120, 0x121A, 0x12AB, 0x067B, 0x1465, 0x1BA6,
    0x1519, 0x121A, 0x12AB, 0x15A1, 0x1594, 0x1476, 0x17B6, 0x0803,
    0x1A65, 0x13B2, 0x18B3, 0x1574, 0x1B87, 0x1B62, 0x16A2, 0x1756,
    0x1847, 0x0190, 0x1465, 0x1459, 0x121A, 0x1380, 0x1089, 0x1849,
    0x1783, 0x1B73, 0x17B6, 0x0764, 0x1A65, 0x1190, 0x1A91, 0x19A5,
    0x1940, 0x1480, 0x1784, 0x1574, 0x1675, 0x03B2, 0x1A65, 0x1380,
    0x1219, 0x1942, 0x14B2, 0x07B4, 0x1A35, 0x1584, 0x17B6, 0x1190,
    0x123A, 0x0385, 0x1965, 0x121A, 0x1B03, 0x1B60, 0x1690, 0x0784,
    0x1945, 0x17A6, 0x13B2, 0x1018, 0x1178, 0x01A7,
];

/// Entry i of the topology table.
pub fn mc_lut_at(i: usize) -> (r: u16)
    requires
        i < MC_LUT_LEN,
    ensures
        r == MARCHING_CUBES_LUT[i as int],
{
    MARCHING_CUBES_LUT[i]
}

/// The case-mapping entry for an 8-bit corner-sign code: the packed case
/// number (high nibble), orientation bit, and configuration index.
pub fn mc_case_entry(code: u8) -> (r: u16)
    ensures
        r == MARCHING_CUBES_LUT[code as int],
{
    MARCHING_CUBES_LUT[code as usize]
}

/// Splits a packed table word into its four nibbles, highest first. A
/// triangle word carries one flag nibble and three vertex selectors, each
/// naming one of the 13 cell vertices (12 edges and the center).
pub fn decode_nibbles(word: u16) -> (r: (u8, u8, u8, u8))
    ensures
        r.0 == word / 4096,
        r.1 == (word / 256) % 16,
        r.2 == (word / 16) % 16,
        r.3 == word % 16,
        r.0 < 16,
        r.1 < 16,
        r.2 < 16,
        r.3 < 16,
{
    let n0 = (word / 4096) as u8;
    let n1 = ((word / 256) % 16) as u8;
    let n2 = ((word / 16) % 16) as u8;
    let n3 = (word % 16) as u8;
    (n0, n1, n2, n3)
}

/// The extractor's triangle acceptance rule: a triangle whose three vertex
/// indices are not pairwise distinct is dropped as degenerate; an accepted
/// triangle's first two vertices are swapped when the orientation flag m is
/// clear, so all emitted triangles wind consistently.
pub fn resolve_triangle(ti: [usize; 3], m: bool) -> (r: Option<[usize; 3]>)
    ensures
        r is Some <==> (ti[0] != ti[1] && ti[0] != ti[2] && ti[1] != ti[2]),
        r matches Some(v) ==> v[2] == ti[2] && (if m {
            v[0] == ti[0] && v[1] == ti[1]
        } else {
            v[0] == ti[1] && v[1] == ti[0]
        }),
{
    if ti[0] != ti[1] && ti[0] != ti[2] && ti[1] != ti[2] {
        if m {
            Some([ti[0], ti[1], ti[2]])
        } else {
            Some([ti[1], ti[0], ti[2]])
        }
    } else {
        None
    }
}

} // verus!
