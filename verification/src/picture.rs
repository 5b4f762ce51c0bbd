//! The picture of the profile that the registry starts with.
use vstd::prelude::*;

verus! {

/// The picture, as a data URL.
pub const SEED_PICTURE: &'static str = "data:image/jpg;base64,/9j/4AAQSkZJRgABAQEASABIAAD/2wBDAAoHBwkHBgoJCAkLCwoMDxkQDw4ODx4WFxIZJCAmJS\
    MgIyIoLTkwKCo2KyIjMkQyNjs9QEBAJjBGS0U+Sjk/QD3/2wBDAQsLCw8NDx0QEB09KSMpPT09PT09PT09PT09PT09PT09PT\
    09PT09PT09PT09PT09PT09PT09PT09PT09PT09PT3/wAARCAE0ATQDAREAAhEBAxEB/8QAHwAAAQUBAQEBAQEAAAAAAAAAAA\
    ECAwQFBgcICQoL/8QAtRAAAgEDAwIEAwUFBAQAAAF9AQIDAAQRBRIhMUEGE1FhByJxFDKBkaEII0KxwRVS0fAkM2JyggkKFh\
    cYGRolJicoKSo0NTY3ODk6Q0RFRkdISUpTVFVWV1hZWmNkZWZnaGlqc3R1dnd4eXqDhIWGh4iJipKTlJWWl5iZmqKjpKWmp6\
    ipqrKztLW2t7i5usLDxMXGx8jJytLT1NXW19jZ2uHi4+Tl5ufo6erx8vP09fb3+Pn6/8QAHwEAAwEBAQEBAQEBAQAAAAAAAA\
    ECAwQFBgcICQoL/8QAtREAAgECBAQDBAcFBAQAAQJ3AAECAxEEBSExBhJBUQdhcRMiMoEIFEKRobHBCSMzUvAVYnLRChYkNO\
    El8RcYGRomJygpKjU2Nzg5OkNERUZHSElKU1RVVldYWVpjZGVmZ2hpanN0dXZ3eHl6goOEhYaHiImKkpOUlZaXmJmaoqOkpa\
    anqKmqsrO0tba3uLm6wsPExcbHyMnK0tPU1dbX2Nna4uPk5ebn6Onq8vP09fb3+Pn6/9oADAMBAAIRAxEAPwD0HdVmYu+gBd\
    1ACbqAF3UAGaAEzQAZoAN1AATQAm6gAJzQAM4RcscY5oGYOseMrDS4CRKry9AgPNAjgNZ+IGp3rKtvIYI1OQRwTRcfKcxdan\
    NezPNPK8rnqxOcmi40rFNrhmPTGODSGN87MhJP0oCwvnegJ9+tFwEEjHtn+VFwFZyRjoO1FwsAcDrn60DJUlJICk5NAjT07x\
    FqenODb3UgA42k5FO4nE7bQviWCUi1Rdp6GQdDRoS00dza6jb3savBKrhhkYNAFjNAC7qADNABmgAzQAmaAAtQAm6gBM80AG\
    aADdQAbqADcKAF3UgDNABuoAXNMAzQAoNAwzQAZpAJmgQZoGITQBUvtTt9Nh826kCL6mmBwfiHx8JA8OnnK9N/YUBa559Ncv\
    KWd33sTj5s/nmkVYgMhccgcDGPxoAQM244GMdMc0XACjyZY0rjFEYVRnqaQEywhcMQAv8AKlcdiZId7bUGQRkYouOxDJbso5\
    IznpTTFYheEpgk9aLiGD5c0wF3Hqc4oAkEmG7GmBraRrt1pNwkttIxVTyhPBpktHqHh3xhbawpRz5cw52mgk6VWBFAxxNAhN\
    1ABmgYUCA0BYSgAoATNACZoATPNAC5oAdSAKAFHSgBRQMQUALQAtACE0AJmgBM0AU9R1SDToS80ioOxJoA8p8UeKJtYlaIMF\
    hU9AeD70xpdznFYxlsANn9KQyGcyMCjEY9hSuMWKL5gowR178VNx2JUgycgqBnGaYEmzPygHaOd2BikMDCpOUbGB6UCJkWVj\
    gxKcjqanQrUmj227AnDHtjg0bjvYbMm8bmAXJzjPNCYrXIDApIMjA4PrTuwsitKo3Z2YFUiWHkZUN1z0ouFhjxMmQQCKLisE\
    alG4z/AEqhE8NzJbTiSNyrg9RxmmDR6d4P8Vm/jaK6IEgIAJ70EbHabs9KQxaYBQAZoAM0AGaQhDTATOaQCGmAlIBaAHZoAU\
    UAGaADNAChuKBi5oAQtmgBKADNAFa8u0tIGkkzgDPFAHkvibxFJqt0yIziBW4UnrQxpGEITIwIU4P60iiSPT/nJkJx6UgJ0t\
    bVM7j0/wBrNAA9vGwJU9OwNFguRLAeuBj3IFAD9pZNoUIO+3vSGIqqOCB0/EUD2Daq8qqt6bqQDlSNkO4fMBzzS1GkiMz4BC\
    qAvTJNFguRNuYg4z74Iz+NMNyVLcjkbh3IPOam40h8kRjgBC4P8qL6ja0IhAUUlyOe1O5PKM2qR8qgVVybEDpzzngcelUmKx\
    Zsbqa1nV1cIQc8VSJaPW/DfiBNTtlyfujliepoJOgBzQAtIAzQMCaAEzQIQnJoACaAEzQAmaYBSCw+gBaADNAwzQAUAGaADI\
    FACZoAjlkEcbM3QUAeZeMfEcl7O1tbsVReDhutA0jl0hG0Ent3pFCm6ReEyeeopARTXLyLs4x6c4/TrRcdikY5mbnJ59aVws\
    y5BHMOGyfYGjmHysvQwTk5aNiB680udD5GSNGUPIw3oOaL3DlsJlm+6mB9aLoVmJ85bGDnt7U7oOVgtncSnBBA9cdaTkNRLE\
    ehyMAdrc/3eMVDmWoEi6LJEu7yzk9Dmp5i+Qs22kyht7jC/Tik5oagxt5bHG4D5R2pKQ3EyJLcysWXdgfqa0vYy5bjERt2Np\
    x61VxDZYTww+tNMlq5TlkbdyBkdz1q0yLF7RNXm0u6R0Y7c807ktHsej6kmo2KSq4JI5A7UCNAGgBc0ABNACUAFAhKACgYUC\
    EoGPoEFAwoAKAAnFABmgANACZoA53xjqgsdLZFciSThQKAPLP+WxLkMx5x/jSLBY2uHwucdOe1Juw0rlyLR3Me7YcdB9Kycz\
    aMCVNId2A2YNQ5mipmra+HY8Ay/lWTq9jRUl1NWDRrVDjywTWbqNmippF5NLRxtCgL6AU1JicUD+HLZyTuI9eK05iGkJH4Wh\
    dsuTtH5/nVKTJaRei8LWKgfKD+Oaq5Fi1HolpBykQGPxobGkPktIo87Y1H4VDLRTmtUk6DBrNs0RE1qiKRjtUtlJGdd2auhX\
    A5pKQOJljTFA6AH1q+chwK0mmBWPyitFMzcBj6WGQKABVqRDgYGpae0DE4PBrWMjGUTKbAIycHtWhmdt4D1x4rtbN2GxumaZ\
    LR6eDQSx2aAFzQMO1AhM0AJnNABTABSAM0AOFABQMWgBKADNAATQAlACE0AeY+ONRN1qzQA4WLj60MaOaSMyLhRt3cZ70ijo\
    9LsEjhBZcn3rnlLU6YxsjVAUHAAxWUmbRQ9AAeFrNmqJVfJqGUXIVLEEUWAvwwj+I5P1q0jNsuxxqB92tEjNkoQMwJx64qhE\
    isq+lFxDsjHamIrT43cdKllogZQehqWikyvIBt5H1qGi0yjMPlOahou5Tk6n9KAZXY5OCKtEMapwfrVpmbRS1C2SdWyO1apm\
    TRxd/amOVgOgrZO5zyVmGkXJs9RhlycKwzVohnuljcC5sopVBAZQeaZBZFAwpiCgBc0gG0wCgLBSAM0xjqQhaBgaACgANACU\
    AGaAI5XCIzHoBmgDxfVpWutVnk3fecmkykLZrmUegPWok9C4rU6eIhYgB6VgdI5XGazkaxJVftUGiJYz8w+tSUXbdxkAHrSE\
    zWtipzkjnFaxM5FpWHHJqyB28f/X9aAF356/oaBAZQOhoHYhZgTzjNADGcAcZpMaIZSMc+npUspGdcNzjFQzRGfM/cdqQFUy\
    e5qiWIX7irRDGu24YNaIze5g6tbguSO9aQZlNHPSJskBBNaIxaPZPB05n8OW7HOQMc1Zmb1AgoAKYwzQAUAFIBKYBmgB2aQh\
    aBiUALQAZoASgAzQBU1J/L064bnhD0oA8aYl5mPcknmpLRctU+cH0rOTNYo2Y5MqM1mbIeH+aspGkSZWJGRzUGqJYpMYyaVh\
    3LMM4DDaCT9KVgNK2uDu5+XtiqTJaLqsSMZP4DFXe5FhwYk8lvfIoCw7JA4Yg4p3ELyQASf5UAROcHqfocUhoi3fXPsaQyCZ\
    iWI5/PNJjRnzuee+fepKKUr8npTC5Xzkk0ySN3x61SJYBvWtEZMz7/AOc46iriRIw7u3AySCcdK0Riz0n4ezF/D5Ugja5FaG\
    TOroEFAC0AFAxKACgBM0wDNADqQC0ABoAKAFoAQmgBtAFHWTt0m5JbHyHmgDyKOPc5bmpZoi5GCBjpWTNUXY3wAKg0RIrZII\
    qGaRLcLbgBjpWbNEWY4dxz1NIZbhiIoGX4YGJ9KdiWy/FA2BkfrVJEtkjRMOo49QaYrjVBB5BGfakApA9fpTBDCmexP4HmkM\
    a8ZC5wc/SnYVynLEehWpZaKU8OOcdqkZSePr1NAyBxtzxTEypK3zVUSJEXm+9amRWlbc2apGcilcruQjGeK0Rmzs/hzxpVwD\
    nIkrRGTOyFAhaBBmgYUCCmMTvQAmaQBQA6gBc0AFAC9aAEzQAZoASgDN18gaHdnOMRmgDyy1XMeeTgZqGaxLAGO1Zs0ROhHQ\
    dqg0RIMj3qGaItwPgjNQy0aNuRUMtF+Agtx+nFFx2NO39apMhl1MY6fnVpmbJBt9RmmJieWGGRj+tAC+Uec5/OgLjSig54zQ\
    AxlyOnP0pFFWVODnr1qWykZ9wp6d/epKRnSrnIzj8KBlCdguQDk00SyhKSxq0ZsiJPerIZXL/Oa0RnIY68ex96tGbOt+Hxxa\
    3i88SA47VotjJ7nZA0Ei5oGLQIKBiZpgJQAUAFIB1ABQAtABmgBM0AFACE0AZuugtol2AR/qz1oA8whO1cD8azZqiXJYgfnU\
    stFiOPauahmiHjJ6cVDNEWbeJmYYqGWjXtrZscis2zRF+CPb2xikBoQMFYE1SJZfiljwM4BrRNGbTJW2EdQPrTJ1BFU9x9Ka\
    BscQM55oEN+UHNIY2R0CnkUMaKNxOpHy1m2WkZ8vzgnpSLuU54Mg460gMu5snAJXmrTIaM51ZT8wq0QyE5qkSyvKhDbh+NaI\
    yZGxynHHrVohnWeAThbwZ7qatbGUtzsgaZIuaAFBoAWgANAAelAxKYCUgHA0AFAC5oATNACZoACaAGk0AUtWUvpdyo7xmgDy\
    tW2g5A4qGaotwR7iGI4rNlonPPHrUM1RdtbXcMsMcVEmXEtwXMMbFe/TNQ4tlqaL63kYHBHFHIPnFW/UtwRxRyi5iZL1ccHm\
    lYdyZbwFRg/TvQBMl63ALZNFwsSreMzdR9TRcOUedQI69armFyjRegjOcmlcLFeS+Z+px6CldjsVZbsbck/rRYdyk+oqgJ3D\
    rVKLIchn9pqR94HNPkJ5yCbUo1B+amoA6hDG0d4jYK7h6UNNCUkzPuYDC+D09atakvQiK7gKtEMqSjYxUmrRkzrPAfMd2fcC\
    rWxmzsAeKYh2aBBmgY4GgBc0AJmgBKACmAtIBc0AIaAEoAM0AIaAGk0ARTr5kEi9cqRQB5K4KTyI38LEVDNEacK7YlPtWbNY\
    j41VQZJOFUZNTYq5XutdxGYolVF9e9CgHP0KSX205838fWqsTcV9YK8K2401ETnYYNdccvJj0HWnyInnYg8RyBgFb8aTgi1N\
    mrZa88i/MfmHSsnBGkZmvb6osnBYZrNxNFMuxXYZuv51Ni0yaWcbetA7lKbUliU5PNNRJcjOl1kKjuGOSOBmrUCHMw7vxFKn\
    yKxAH61ooIylNme2ttK33iPxrVRRk5ME1Nx/GXH16UNIFJkw1AOvGf61Nirjk1Bo2DRuVI70h3NK11A3v7uYA56NRbsPm7j9\
    pRwKBMp3gxLk9xVohnX+Bo9un3EnTdJj9KtGUtzqQaZI4GgLi5oAXNADs0AFABQMM0wCkAZoAKAEJoATNACE0ANLUAJ1xQB5\
    drkBtdbuY+g3kj8allouDIiTnrWTN1sQ3soitSgI5oSE2YRQu2Sc0XCwpgQL8zAD60XHYjW1W4O2JXkJ6bVJFF2KyIbzTZ7R\
    cy2siqe5XFUrktIoiSNW5UinqJWLkMwXlScVDLRegv2QjnNS0WmdBpt28oBzWbRpFmhM7eWTyPpUlM53Ubtt5BJrRGTMmW6P\
    dqtEFCa4TONuT6VaTIbQttBNcyARQ5zTA1v7EvI03NEhHfDc1DY0iL5YeJo2T3I4/OkUSbUZflxigCS0HkzAjpVIlmxJgsrJ\
    3pDKeoYVlJ6kVSIkd14UgMGhRZGC5LVqjFm0DzQAu6gQ7NACg0DHigQZoBBTGGaQgzQMM0AITigBCaAGk0AIWoAq3t6llbNN\
    IeBSk7K5UVzOxjx+IZyd3lo6eg64rFVtdTodBW0Oa8U3NvdarFPbty6fOCOQRWl0zHlcdyUD5Fz2FZs2WxlX8hZsHpRcVjMl\
    mESE0bjI4JYkXzrsGRj92PsKdn0Juuo691W9iRCoESt90DqKaihOZTfWJ5YgBJKXzzkgr+WKvlViOZj2t5ZbZZ3h+U91HT8K\
    h6FrUhSFkGV5FF7jSsTQZaQCpZR2+g2ayxo2M59q55vU6ILQ6W+0pUt1K45FJuxSVzgdfgELkAc1rB3Maisc6VaXhQa1MrXF\
    gti0gWNfMkJ6dhTuK1hb17mzuNhbAXqF4FNJEybIf7QuBJmN2TtwSappEqTRsPeXEMYW6QSxEdcVm49jTn7lP/AFUpMBJhPb\
    +7R6gvIuRyZxSKNm2bfCB6UAVdVONhx14qkZyOri1eRrCGCBfJjRAMk/MamdXsaU6HVlJPEZsb5EeUvuPK9amE5XKqQjbQ7O\
    OQSIGHQjNdJxkmeKAFBoEPBoAXNABTGLmgBM0gEzQAhoATNADTQA00Ac740XdobYOCGFRU2NaXxHB2GrS2hERJKEcE9qw5bn\
    Vzcpcvj9o8uXqdwpwetjOpqrmvtGznrimxIzbmzMpOB9KjmL5TLl09y5GMgd6pSJcRsWnjzkZnJ25/CrcmSoo0LrRhqNmoR1\
    Dp93JFJSsOUL7FeHwdeYAaOKPHJcv/AEqnJEKLNwWUdtYrbL5ZwMElxWbepoo2RnjQkQmWOaHd2AcnP4Yp3DlGmwjlnWSNCC\
    3JB7VDZfKdd4ctvLt0BFYTd2bwVkdPeRZtRxxinLYmL1PPvEVl5lznHarpvQmpHUyxpaSQpFGyxAfNIz559uK1UjNomtbC3t\
    JVeOSAY6jBwaG7iUSTUdDg1NxOl1BFKMAhicNVRkTKBRHhmNLhXnuYCnUrGc5p89hezbF1KzR1KqzEdPQVPM2y+VJFWHT1Y4\
    izx0GacpExiXItMIHIORWfMacpcgi8oEYqkyWivqKhpLc9g3NX0ItqMvdRZFWOL7xHHtWSjc1cuxlW4eS5Qvktu5Jquouh69\
    af8e0X+6P5V0nEyxmgQ4GgB1ACg0Ahc8UwDNIYmaBATQMaTQAhNADSaAGk0AYfipd+mbPU1nV2NqHxHAxWG8sSO2KxvY6Wrk\
    qExlIm7MB+tUt7mctjdByPWkwiWIYA6dKxbN0hs+n5Tgc96akDiYV5ZzQOWQcelaKVzNxsyBdQ2/LNET9KLBclS8DsPKgkZv\
    xoC5fttPursbpV8lP1ouh6s1oNLjhjztJ7c96lysNRbBrNYV4HzGs+a5py2NjQxwq+9Q9yuh0lyv8Ao5z6Vo1oZR3OJ1dc3n\
    0qY7GkiGO0QMTjIIwaqMrESjco3eigOWjbY3b0NacxPKzOljvISd0O8eqimLUrteTL0tyD/u0CGBLy9kAYFVoukJps27HSyi\
    g45qHItRsaTWYRe2cVFy2jPlj2sa1iZSRk6m2yNGzjDf0rToZdSC1iEr+Y5BPas27aGsVcnhtQt1nHBJpNlJHo9kf9Dhz/AH\
    BXWtjgluWAaZIoNADwaAFBoGOzTAKAEpAITQA0mgBCaAEJxQA0mgDM1u3Nxp77eSnzVE1dGlKXLI4xv3YKgVzHaZErStqEJL\
    fKHFXHcynsdLCcDnpRIUTTtACeKwkdETTFsrpjHHf3qSirNp6twQPencVio2kQ7ssgP4U+Zi5UOW2hgGI4hz6VXMw5UWre0Z\
    zuk4HXbSbGkWJ2Cp9Og9Ki9yrWM1nDNk9BQDNXSF2up6c0nuPodDeHFqT6itJbGUdzjtSH77dxioiXIhglwwB6U2gRoNCtxF\
    g+nBpJjaKTW7wnGNw+nSquTYVbSOQ8xrS5mOyJ0sEXlVAo5gsi1HbqnJGAPalcLEdwgAJ6CgGYN4QJOK2gYTMHWUM1vtXruz\
    +FbdDJbkWnqEUKOtZSNkbVnbm4nSMcktj/ABoirsJvlTO3QCNAo6AYrrOC5IKBDgeaAHUAGaAHZoAdmgBCaAGk0DEoAaTQA0\
    mgBpNAhjYZSD0PBoGci+nFr+5iP8PI+lcs1ZndTfMjGutOe2ZpiuUXv6URYTWhficFAe3WqZnE07GYDvWEkdEWbcMwxjNZmh\
    YGxuvShBYa0ajjj1qkxMaLdVPB69waLghxQKPQVJSMzUpdqHB700JlG2dZZFXrVNEpnS6fEAVFQtynsbV2h+y1rJaGMXqctq\
    ESlWLdazRtLYwmmAmABxV2ITNu0bcg69KyNC2IlOcgkex600JiiIc4GB6AZpiF3qDgAe9IdiOSYCkMoXV0APvCqSIbOfupd8\
    h56muiCMJsoSHfeRRno2auWxnHc07TSkScLjODWLZ0pGloUAOoTyY+WM4Fb0l1OavLodFmtjlHg8UAKKAHCgBRQAtMBaBiUh\
    BmgY3NADTQA0mgBuaAGk4oAxtQlS01NJW4WVdpPvWFZdTpw8uhlaoyy2s8JIwwyD2rGDszpqK6M21f/RVPtW7RyxLMFxsPpW\
    LRsmbVrPuA2n86zaNky/Ez/wB/HNQWXYVAAPQ0CJeoxj34pgQzOApx/OkNHO6kZLidYYgSznt2qokyLUGnC1nQ7skDmm3cSV\
    joNPXdKPrmlFXY5OyNm75tSM1tLYwjuctfjOVArBHQznr3TnFsZocsyNkj2rRPoZtaXNHSpd8ak+nes5bmq2NlGDZyO3SkIX\
    PBBwM0wK8xQn29KQylNIq8BiB9aZLZjXs4GfTtWkUZyZl7yzitUYyZDDLGNZUyZJUfKPU05/CKn8Rtm/jtEeWVsOegrFJs6H\
    JI1vDoJ08ykYMjFq64KyOCq7yNcGrMxwNADgaAHigBc0wFpAFAwzQIQ0DGmgBpNADSaAGk0ANJoFcxfElt9osMjOUbII7VM1\
    dGlN2ZjI9r9hEF1IVk29fWuWS1ujsjJWszKtHxC0YbIU4Brd7HOtydDgZycGsmbI0bS7KN1qGi4uxsw3IIB3Y9qyaNUy/HP2\
    NIosrJwOaAK9w/y4JP40DM6C4ihuHLkb845qrEXI7nVI47jlhiqUbolyszRsdSXAeNuanVF6NFx9Udl5binzNkqKRkXupRR7\
    izDPpSSuDdiCy1CNkYseDTaBPQdaOvmuY8bc9qUikzVjkIA4qRiPJgdaAKVxOQDzzTE2ZV1dAZw3XsKtIhsx55/MfHWtErGT\
    ZDuwd2eBVxMpMTTLmCO6lknXJGMUVFpoVSaW5dmjTU5kmUfKvAX1NTFW0Kk76nY2UQgtY4wMYFdS2OKTuyyDQIeDQA4GgBwN\
    ADgaAHA0wFpAITQAhNADSaBjCaBDT0oGMJoENJoAhmUSRsrDORQxpnD3lnJJOxJyoPArmv0Ouxnw7oJ3jYYAOK0WqMnoy7G5\
    3bTxn8azaNYsniDo2VH51DLRqW0u4Djp196ho1TNOBzn5hj0zUF3LaS5yM8jsRSGOKM2TigLnHeJS9rdecj4Vh0z3reKujCb\
    szlpdVvDJk7WWtVFGLmzc0vWQI8qxz3U9qiUS4TNF9dcrgGpUS+c57VNWd5MQne56kngVpGJlKfYgttTuQwDsvPpQ4oFJnc6\
    BERZgyHLMc/SsJnRA2dpx0qDQZKwUdcmgDOuX2kkYwOKaIZk3Lgjj6CtEjNlBxsyT3qzNlWV9sZA6ntWkTOTJNOtPMiLN3bF\
    TN6lQWhvaVbCO5iUc5OSPSiGsh1NInTA10HGSA0AOBoAeDQA8GgBQaAHZoAXNMdxM0hCZoGNY0ANJoENLcUARk0AMJzQAwnm\
    gDB1azljdp4FLK3LKOoNZTh1R0U6itZnKzsxuGZ0ZSemRilHYJO7HxSknn86UkOLNCKXcB3/pWdjVMu2zZGVIyOtQzRGhFMC\
    OWBI7elQzRGhC4759gaB3LKuNn/wBegVzntds0uoyrYOeSPStYMzmcXc2KQtsQYbPStkczKrQvD+8UkY7inuLYa11M67A2M0\
    uVBzMcLVl/+vTuBf0/S4pZlYnnrUtlRSO806MRwqB0rCR1QL3mAc9fUVFirlW4kABK8e9IZnTSBjwR+NUiGZ903zc85rRGbM\
    +ZwB149qtIzbKEjFs4ArRGbNfTbG/MKmOD5H+ZWzxg1Lg2yo1IpHT6bYm1UtKQ0rdSO1axhymM58xoqaozHg0APU0ASCgBwN\
    ACg0AOBpgOzSAaaAEoAaTQA0mgBhNADGoAYTigCNjQBGzUAcz4pTD28uOOVNKRcWc9uwcjPFZmqLdvNn61DRaZowvkckg1m0\
    axZoWzZ7/UGoZomSNqWxiF5x+QpxiRKZF/bATeMnOck46VpyEe0Kdxq5uVdAOByT7U1GxLlcoi2M0yMEPzjkincSVxdR0eeP\
    TxIISS3YUKSG4Oxmx6VLI0XlxsSOvFU2Qos1rjR7i3C4Qcj06VHMi+RkUcRtZDIq4YDOO1O9xWsaFtrLKwBU/QUnAamTnU3I\
    XGRnoR/Wlyj52SQ3wmUq3DCs5RsaxlcrzPye/40IGZ802CWHQVokZyZmyy72PPHpVoybIyBnHU1SJZ31ivk2cMf91AK1MS2p\
    oESA0ASA0ASKaAHg0APBoAWgBwNAC5oASgBDQA0mgBjGgBhNADWNAEbGgCNjQBExoAxvEURl0tmHVCGpPYqO5yW4HPJrNmyF\
    jbbkikNGnayZxz83rWckaxZeacxwk5w2PSoSuy27Io+ZvUck8569a12Mdyu8iliM9+TTuTYuQzW1rGWnI+YdBUO7NEkhf+Eh\
    Xbsto1UDjJHNHI+pXOkWbTxJLAcTbJUP8AC1HIPnLdz4ltoUDWtsiyMOSTnFHKHMjLk124ZzI8gOexo5A9oRnXYJsrKgVv7w\
    o5WhOSZDNJGoDxsOvWqRm0Mju9xKgk57+lMkmjuGSdfm5J5yOtJq6KT1Lsrggk8+1ZJGz2Mm5lJJ+lapGDZWIJXdgdKoRNaJ\
    9ovIYwP4gCfaqitSHsd0jdBWhkTK1AiQNQBIpoAkU0ASA0APBoAcDQAooAdmgBDQA3NACE0ARmgBjGgBjGgYxjQBE3SgCJzQ\
    BXuYxNBJGejKRQBwBBjm2OCCpwc1m0bJkhwRt9+tSUWbSQ56ZqWiosvz8w84P8qhbmj2MyaeTZti61okZtma0d8W3RoTjvmq\
    0I1JI9Pv7k5kBUD1o0RSTZrWfhS4unCpcDJ45FTzI0VMsXPg7UrdQyssgPQev+cUD5CpF4c1SdiGhVRnbknpQHIWpPBt7FGW\
    lmxj0FFx+zuZ1x4dliyEm3Nn8Kd0ZyhYoPY6hGSgAI9c09CNRYoLm3b5zj1pOwrM0YZDIVH8QpMpGlM+1MD0rNLU0b0MyT5n\
    JHIFaGTIpHxGqggVSQmzR8Nw+ZfvN0Ea/qauJnJnWIcVRBMrUASKaBEimgCVTQBIDQA7NADwaAHA0AOzQA0mgBCaAGk0AMNA\
    DDQBG1AEZNAEbUARMaAImNAzkfE1p5F0LhAdsn3vrSaKizISbuc+tZtGiZYjuAOnFJopMuG5zDjNRbUvm0GWkfmyZBBqnoKK\
    ua4hRY+AM/TvWV2a2RGk5hf1X0qrsVkW4r6JSHik2MO1JmiZrReIFZQJ3LY6ZNFx6CNrtsv3FA79adxXKN3rP2gfNIMD1NKw\
    +YzpL6PGI/mJ71V7GbaZHH+8OTgmpbYIW5tozDk9fWhNikkZUZEM3FaPYyWjHXFwWfrgdaEgkym0+B1PXmqsRchd8t69BTQm\
    zsdEtTaaeisPnf5m9q0RmzVQ0EkymgLkqmgCRTQBIDQBKpoAeKAHA0AOBoAfmgBpoASgBpNADDQBGTQAxjQBGxoGRsaAImNA\
    ETUAUr60S+tmhk6HkH0NAzgrhDBO8ZHKkg1JQ2J2zUspMsmc4xjNTYq5cs7jbjBGaTRUWacd2uOc9KzaNlIguG3ZKmmiWZk8\
    kyk8ZHarViHcoyyTDoSPxqkkZtyIt8zHlm+madkK8izHJKO2frSdi1cvwrI2CzACobLSNCGYRgDBNQ0WmE1wSh3njpTSJlIx\
    p5DvJH4mtUjFsjMhPOaLBciLEEMO/SqJNDQrZbq/UyDKr831PpTQnsdmuKogmQ0ASqaAJFPNAEqmgRKpoAepoAkU0AOBoAeD\
    QA7NACUANJoAaaAGscUARk0ARtQFyNqBjGoAiY0AQsaAI880AcRq8X+lyMOu4/jUX1NbaGbnGMUCJAxOFIpDLERKjHJNAy3C\
    7O2D06VLRSZpQWTygnPHY1m2apD5NJcgDHU8UXBogHh03EuPMxn0q+YjluIfC7KMl245OBRzByEsegled351LZSiSrpbBcnI\
    A/WpbKSK1xAYlGDiqiTIoOzOMHNaIyZUlO5vYdhTJZXY9V/MUxDRywA60AjodARY5wOgxxRF6jktDpF4qzIlU0ASqaAJAeaB\
    EimgCVTQBKpoAkBoAcDQA4GgB+aAEJoAaaAGmgBjGgBhoAYTQBG1AETUDImoAiagCvcTCCMsaTdhpXOTvz5kjMe/NZXNkjFl\
    BR8joapEtArdCDimIt28ocgE9OpNJjTNGHlu/SpLNOC7MUQCnjPJPU+1Q1ctNovRXhmBkxtGMAZP4UrWKvcsx3awrk4yB/nF\
    IoRr9HTnb05oECTIYw7DgdAfQ0DKM11+8OxzzyBnpTsS2Z8lwZVG8jIPOfeqSsQ3cp3JCx7sfr1qkSzJnnDHgDjgmrRm2QtJ\
    gYBoAltkJbNS2UkbNqdgBzg54NK42jpLS4E0Y5+YVpF3MmrFxaokkWgCRetAiVaAHqaAJQaAJFNADxQA4UAOBoAM0ANNADSa\
    AGNQAwmgCMmgBhoBEbUDImoAhkYIpJ6Ch6DRjX9wZFPpWLdzSKsYs/zoD6ikWjNuIximgaKTDaatEWFSVlbgkf1oFsalrdhi\
    BjHHrUtFJk6XQK/ezz+FFh3L0F2BGpU981DRaZK91uhJz83QYpWHzFH7XIJsbuBV2J5tS414xQHd+FTYu5WNyAxJNOxFyr9p\
    Cg7u/QGqsTcp3V3nIyfpTSJbKGSzZpsVh8aZNJspF+BQtQykXGfy0Q+rAUxM1bWVojuBpJ2JkbVrcLOm4HnuK2TuZtWLS0xD\
    x1oAkU0CJFNAWJVoAeKAHg0APBoAXNAC5oAQ0ANPNADGoAYaAI2oAjNAEbUDI29aAMm8uPNl2KflHWspSuaxiZ1yCVY1BVzM\
    Q7oFzTGitKmaBspSxZ5xTTJaK5XH+FVcmwiuy8DpTESxzkHhv1pDLMV40a4z1PNFguTfbs4PQemaVh3I/tQJz+tMLg16cfhS\
    sFyF7ht/BqrCuRPNk4HPpQK5Gcscnk9aLgkKq7jxSKRZjQD61LZSRciXFIodeNthj/AN8U0RI1YZFaJQOtSJ7ElvcNa3YI+6\
    eoq4uwmro6KJw6Bl6GtTIlFAEgoAlUUCJFoAeKAHg0APFAC0ALQAhoAaTigBpNADGoAjagCNjQBC7qoyxA+tAzPvL1fKIiOS\
    eM1EpFxjqZSsRxjlqyNLizKPs7HPNILGDbvlCvoTVFRJGTIqSitLHhT7U7iZUlTNUmQ0QFSKoQ0rzQIBkd6LhYX5v71AWDa3\
    AzRcVgIY/xUDsIUz1JNFwsKFxQFhwTJpDJo4+MAUirFqJOOlJlIsqvpSuMq6i+YwPeqRnM1LXP2ZDSDoWX6AmgSNPS7grFtY\
    5APFUp2JlE1UcMODWikmQ00TLTJJAaAHqxoAkBoAeKAHA0AOoAcaAE70ANPWgBh4oAYTQBE7ADJ6UAlcyrzVRGNsI3NUOaNF\
    TKDi4uo/MlLbf0qG2zRRSIGbD7F6CpYEJf98T6CjoRfUl25tGJ71JaOdiO24kX/aNUyolwcjikURvHk8cUAVZIcU0xWK0kfX\
    incloiZcdKokYBTAft4pDsG2gLBt9qAsGPwoCwoWgLEsaZNSMsRx4NIpIsKnHHSkMcTgcdKAM+8y/HuKtGcjbtkK2q+wpCjK\
    5I8qqig96A6lqxk2kqTg9qTGaaNjkGpCxML7ygN/IrSM31M3FFyG4jmXKNmtU7kEy0xEq0ASCgBwoAdQA+gBDQAw0AMagCFn\
    ywUdT61EppFKLZbW0jii3y/O3oKycm9zVKxQ/s22acyyRZP90dBUjKOvXHlRxwxBVUjcQPSrAw4U8yVVB5c4pA9SxrVpHaTx\
    pHxlefemZy0YgX/RcegrNvU1WxzEvyahKPoa06BHcsxtUljyNw96QyJ14wRQBWkj9KdybFZ0x2qiSIrTuKwqnnmgZLtGOKQy\
    MjmmINvtQA9V5pAWI4gaTZSRZWPikMfikMjk4FMRTlGZIx6tVIiR1NvbqtjgjnFTfUSVkZs4DQHHVTVoi+paQ+ZGkg9O1JjR\
    cilPlcH5hSaKexKGWVDv7Dk0ibpogjLxyZViKu5kaVvqjIQsoz71SkBsRSK6gg9atNMGiUUxDgaAHUAPJoAazBRknA96AKpv\
    Y3crGQcdWzwKlysUo3H2si3UjBc+WvVz0rOTNFFFkpaxsD8rH86zbKD7bFu2+XJ7YQ0rjKV1Lcy5EMflg9Xf8Awpi1MC8tmD\
    MWdpG6Emi40ZkUrRaxbgnCow4q1sJ7k2t3n2nUCR0UbRQiJasasjSQnLdKg1SMC4iYX5cZIxg1fQS3JlBFSWSqaQxSDigZC8\
    ZxQJoqyJmqRLISlMQwrigQuTjFAABQA4LQMljTmkMtImKQyWkMRjQBE3NMQ6O1zJHI/QHimRI6UkLaZHTFR1DoYUgJ3kdCK1\
    M0P09maQxA8EZ+lEu5RpWzCF2Eqk8UtyipHfPHI6uu5d3UdafKZ8pMNRtweS34iizI5SdJFlGcHHqQaQWZo21xIQIVBduxFL\
    zKu9jYslmaI+cCCDjB61amLkJ8VopJktWFFMRDcX8cQO35mFQ5pDUWY9/PO8JeVtgxkLnrU81y1BmZZ/aZJgY1+QHJDdDSbS\
    KubUSyyykTSfJ/cXgCs2w5i0JGh+WI4A9KgdyaPUZYh8wDfWmmFyje38swwx2rnoKom7ZUub23VFJ49KXKzS5hoPP1NXbu2a\
    12iIjvR/pj/WpWxHUsWqlo2pM2RnSP5eoZYfL0OafQi92PuLcR4ZOUbkGpNE7lfJFMY8NmkMG5oAryDJ5polkJUZ6U7iGmPN\
    ADfK5p3Cw7y6VwsLtAoAljAFJjROOlIYFsDrQAzdnpQIsW1r5rZY4RepoE3YmIM92oQYReFHtTI3Nzy1a0CnsMVF9R36GRGg\
    8xo26HIrVmcdy/p2lLFL5u8nI4FRKd9C7Ggbdd2GUc8VKZb2H23haG4JkkkZTnlRWinoQ0asPh2wg+YQhmH97mhyYGhGsCx7\
    WWMDpyBSuBC+l2jyiaAiOUdGQ0ybFC41WaxmKXUJcD7sid6RW5Xn121kmQI4UkcgjBzRqS0W1u1K5DAj1zVqoyXE5M3Es90y\
    NIyqOy8VIm7GhFbocFgWIHBY5ouK7ZOEG8YyPpU3LijQWJVjyM5qLspxQz+I0xCuMpSAqtGryBGGVqxwWpk6jbpHcAKCAFGB\
    VplWKVuxW6Vh1XkUS2JYyc75WY9c5oM76l3TwNpyM1LOhbFC9jX7Upx1PNNbGc9GLGcO0XVM4waTGipcKElIHrSNRiGgaJRy\
    OaBkUqigllU8EiqEKh5pMBxoAa5IoQDM5OKYixGOKQyQ9KQyB2O7FMRPbKHlVT0JpAX5vk/drwoPQU0ZsvJEiXEIA/5Zikw6\
    l6b5bZtoA4qVuIxVJM2fetTNbnQ6dzbD2JrJ7mxbZQdpqRoLmaS18t4WKknn3qkTItrqM32UsducelO4Iwjcy3EhaVyTnp2p\
    lokW4lgIaNyCKAaFu76a6C+aQcdMCixJXMSSAb1B+ooKIjbKp+VnUeganclpH/2Q==";

} // verus!
